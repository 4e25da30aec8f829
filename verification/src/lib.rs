//! Ephemeral, isolated container environments for end-to-end tests of web applications.
//!
//! Each test runs against a clean instance of the server and of the services that it depends
//! on, all of them containers that are started for the test and stopped after it. This
//! prevents state from leaking between tests and ensures that each test runs in a known and
//! predictable environment.
//!
//! The crate describes the environment ([`Doco`], [`Server`], [`Service`]) and decides, step by
//! step, what has to happen to run a test in it ([`TestRunner`]). Starting containers and
//! driving a browser is left to the caller, who performs each step and reports how it went.

use vstd::prelude::*;

pub mod client;
pub mod container;
pub mod endpoint;
pub mod environment;
pub mod error;
pub mod guarantees;
pub mod network;
pub mod report;
pub mod server;
pub mod service;
pub mod test_case;
pub mod test_runner;
pub mod wait;

pub use crate::client::Client;
pub use crate::environment::Variable;
pub use crate::error::{Field, ValidationError};
pub use crate::server::Server;
pub use crate::service::Service;
pub use crate::test_case::TestCase;
pub use crate::test_runner::TestRunner;
pub use crate::wait::WaitFor;

use crate::server::ServerView;
use crate::service::{clone_services, ServiceView};

verus! {

/// Configuration for end-to-end tests
///
/// The `Doco` struct configures the environment that is used to run each test, most importantly
/// the application server and any additional services that it depends on. It never changes
/// after it has been built, and every test starts its own containers from it.
#[derive(Debug)]
pub struct Doco {
    server: Server,
    services: Vec<Service>,
}

/// What a [`Doco`] stands for.
pub ghost struct DocoView {
    /// The server that is tested
    pub server: ServerView,
    /// The services that the server depends on, in the order of their declaration
    pub services: Seq<ServiceView>,
}

impl DocoView {
    /// The server and every service are valid.
    pub open spec fn valid(self) -> bool {
        &&& self.server.valid()
        &&& forall|i: int| 0 <= i < self.services.len() ==> (#[trigger] self.services[i]).valid()
    }
}

impl View for Doco {
    type V = DocoView;

    closed spec fn view(&self) -> DocoView {
        DocoView { server: self.server@, services: self.services.deep_view() }
    }
}

impl Clone for Doco {
    fn clone(&self) -> (copy: Doco)
        ensures
            copy@ == self@,
    {
        Doco { server: self.server.clone(), services: clone_services(&self.services) }
    }
}

impl Doco {
    /// Start the description of an environment: no server is set, and there are no services.
    pub fn builder() -> (builder: DocoBuilder)
        ensures
            builder@ == DocoBuilderView::empty(),
    {
        let builder = DocoBuilder { server: None, services: Vec::new() };
        assert(builder.services.deep_view() =~= Seq::empty());
        builder
    }

    /// The services of a configuration can be counted.
    pub proof fn lemma_services_bounded(&self)
        ensures
            self@.services.len() <= usize::MAX,
    {
        assert(self.services.deep_view().len() == self.services.len());
    }

    /// The server that is tested
    pub fn server(&self) -> (server: &Server)
        ensures
            server@ == self@.server,
    {
        &self.server
    }

    /// Additional services (e.g. databases or caches) that the server depends on
    pub fn services(&self) -> (services: &Vec<Service>)
        ensures
            services.deep_view() == self@.services,
    {
        &self.services
    }
}

/// Collects the parts of a [`Doco`].
///
/// The server is required; of several calls of `server` the last one counts. `service` may be
/// called any number of times, and each call adds one service.
#[derive(Debug)]
pub struct DocoBuilder {
    server: Option<Server>,
    services: Vec<Service>,
}

/// What a [`DocoBuilder`] has collected so far.
pub ghost struct DocoBuilderView {
    pub server: Option<ServerView>,
    pub services: Seq<ServiceView>,
}

impl DocoBuilderView {
    /// The builder in which nothing is set.
    pub open spec fn empty() -> DocoBuilderView {
        DocoBuilderView { server: None, services: Seq::empty() }
    }
}

impl View for DocoBuilder {
    type V = DocoBuilderView;

    closed spec fn view(&self) -> DocoBuilderView {
        DocoBuilderView { server: self.server.deep_view(), services: self.services.deep_view() }
    }
}

impl DocoBuilder {
    /// Set the server that is tested.
    pub fn server(self, server: Server) -> (builder: DocoBuilder)
        ensures
            builder@ == (DocoBuilderView { server: Some(server@), ..self@ }),
    {
        DocoBuilder { server: Some(server), ..self }
    }

    /// Add a service, after those that were added before.
    pub fn service(self, service: Service) -> (builder: DocoBuilder)
        ensures
            builder@ == (DocoBuilderView { services: self@.services.push(service@), ..self@ }),
    {
        let mut builder = self;
        let ghost before = builder.services.deep_view();
        builder.services.push(service);
        assert(builder.services.deep_view() =~= before.push(service@));
        builder
    }

    /// Build the configuration, or say that the server is missing.
    pub fn build(self) -> (built: Result<Doco, ValidationError>)
        ensures
            match built {
                Ok(doco) => self@.server is Some && doco@ == (DocoView {
                    server: self@.server->0,
                    services: self@.services,
                }),
                Err(error) => self@.server is None && error == ValidationError::Missing(
                    Field::Server,
                ),
            },
    {
        match self.server {
            Some(server) => Ok(Doco { server, services: self.services }),
            None => Err(ValidationError::Missing(Field::Server)),
        }
    }
}

} // verus!
