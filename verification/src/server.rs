//! Server for the web application that is being tested

use vstd::prelude::*;
use crate::environment::{clone_variables, Variable, VariableView};
use crate::error::{image_problem, port_problem, Field, ValidationError};
use crate::wait::{clone_wait, WaitFor, WaitForView};

verus! {

/// Server for the web application that is being tested
///
/// The `Server` struct configures the server that is being tested. The server runs as a
/// container, from a prebuilt image. Its image name and its tag are not empty, and its port is
/// not 0.
#[derive(Debug)]
pub struct Server {
    image: String,
    tag: String,
    port: u16,
    envs: Vec<Variable>,
    wait: Option<WaitFor>,
}

/// What a [`Server`] stands for.
pub ghost struct ServerView {
    /// The name of the image, e.g. `rust`
    pub image: Seq<char>,
    /// The tag of the image, e.g. `latest`
    pub tag: Seq<char>,
    /// The port that the server listens on, e.g. `8080`
    pub port: u16,
    /// The environment variables of the container, in the order of their declaration
    pub envs: Seq<VariableView>,
    /// The condition that tells when the server has started, if there is one
    pub wait: Option<WaitForView>,
}

impl ServerView {
    /// The image name and the tag are not empty, and the port lies between 1 and 65535.
    pub open spec fn valid(self) -> bool {
        &&& self.image.len() > 0
        &&& self.tag.len() > 0
        &&& 1 <= self.port <= 65535
    }
}

impl View for Server {
    type V = ServerView;

    closed spec fn view(&self) -> ServerView {
        ServerView {
            image: self.image@,
            tag: self.tag@,
            port: self.port,
            envs: self.envs.deep_view(),
            wait: self.wait.deep_view(),
        }
    }
}

impl DeepView for Server {
    type V = ServerView;

    open spec fn deep_view(&self) -> ServerView {
        self@
    }
}

impl Clone for Server {
    fn clone(&self) -> (copy: Server)
        ensures
            copy@ == self@,
    {
        proof {
            use_type_invariant(self);
        }
        Server {
            image: self.image.clone(),
            tag: self.tag.clone(),
            port: self.port,
            envs: clone_variables(&self.envs),
            wait: clone_wait(&self.wait),
        }
    }
}

impl Server {
    #[verifier::type_invariant]
    spec fn well_formed(self) -> bool {
        self@.valid()
    }

    /// Start the description of a server: nothing is set yet.
    pub fn builder() -> (builder: ServerBuilder)
        ensures
            builder@ == ServerBuilderView::empty(),
    {
        let builder = ServerBuilder {
            image: None,
            tag: None,
            port: None,
            envs: Vec::new(),
            wait: None,
        };
        assert(builder.envs.deep_view() =~= Seq::empty());
        builder
    }

    /// The name of the image for the server, e.g. `rust`
    pub fn image(&self) -> (image: &String)
        ensures
            image@ == self@.image,
            self@.valid(),
    {
        proof {
            use_type_invariant(self);
        }
        &self.image
    }

    /// The tag of the image, e.g. `latest`
    pub fn tag(&self) -> (tag: &String)
        ensures
            tag@ == self@.tag,
            self@.valid(),
    {
        proof {
            use_type_invariant(self);
        }
        &self.tag
    }

    /// The port that the server listens on, e.g. `8080`
    pub fn port(&self) -> (port: u16)
        ensures
            port == self@.port,
            self@.valid(),
    {
        proof {
            use_type_invariant(self);
        }
        self.port
    }

    /// The environment variables to set in the server's container
    pub fn envs(&self) -> (envs: &Vec<Variable>)
        ensures
            envs.deep_view() == self@.envs,
    {
        &self.envs
    }

    /// The condition to wait for until the server has properly started, if there is one
    pub fn wait(&self) -> (wait: &Option<WaitFor>)
        ensures
            wait.deep_view() == self@.wait,
    {
        &self.wait
    }
}

/// Collects the fields of a [`Server`].
///
/// The image, the tag and the port are required. `env` may be called any number of times, and
/// each call adds one variable; of several calls of `wait` the last one counts.
#[derive(Debug)]
pub struct ServerBuilder {
    image: Option<String>,
    tag: Option<String>,
    port: Option<u16>,
    envs: Vec<Variable>,
    wait: Option<WaitFor>,
}

/// What a [`ServerBuilder`] has collected so far.
pub ghost struct ServerBuilderView {
    pub image: Option<Seq<char>>,
    pub tag: Option<Seq<char>>,
    pub port: Option<u16>,
    pub envs: Seq<VariableView>,
    pub wait: Option<WaitForView>,
}

impl ServerBuilderView {
    /// The builder in which nothing is set.
    pub open spec fn empty() -> ServerBuilderView {
        ServerBuilderView { image: None, tag: None, port: None, envs: Seq::empty(), wait: None }
    }

    /// What the builder holds after one more variable has been added: the variables that it
    /// held, and the new one after them.
    pub open spec fn env(self, name: Seq<char>, value: Seq<char>) -> ServerBuilderView {
        ServerBuilderView { envs: self.envs.push(VariableView { name, value }), ..self }
    }

    /// What the builder holds after the variables have been added one after the other.
    pub open spec fn envs(self, variables: Seq<VariableView>) -> ServerBuilderView
        decreases variables.len(),
    {
        if variables.len() == 0 {
            self
        } else {
            self.envs(variables.drop_last()).env(variables.last().name, variables.last().value)
        }
    }

    /// The reason why no server can be built from what was collected, if there is one. The
    /// image is looked at first, then the tag, then the port.
    pub open spec fn problem(self) -> Option<ValidationError> {
        match image_problem(self.image, self.tag) {
            Some(error) => Some(error),
            None => port_problem(self.port),
        }
    }

    /// The server that is built where there is no problem.
    pub open spec fn server(self) -> ServerView {
        ServerView {
            image: self.image->0,
            tag: self.tag->0,
            port: self.port->0,
            envs: self.envs,
            wait: self.wait,
        }
    }
}

/// Variables are kept in the order in which they were added: a builder that is given
/// variables one after the other holds the ones that it held before, then the new ones in the
/// order of the calls, and keeps everything else. The server that is built from it has exactly
/// these variables.
pub proof fn lemma_envs_in_call_order(builder: ServerBuilderView, variables: Seq<VariableView>)
    ensures
        builder.envs(variables) == (ServerBuilderView { envs: builder.envs + variables, ..builder }),
        builder.envs(variables).problem() == builder.problem(),
        builder.envs(variables).server().envs == builder.envs + variables,
        builder == ServerBuilderView::empty() ==> builder.envs(variables).server().envs == variables,
    decreases variables.len(),
{
    if variables.len() == 0 {
        assert(builder.envs + variables =~= builder.envs);
    } else {
        lemma_envs_in_call_order(builder, variables.drop_last());
        assert((builder.envs + variables.drop_last()).push(variables.last()) =~= builder.envs
            + variables);
    }
    if builder == ServerBuilderView::empty() {
        assert(builder.envs + variables =~= variables);
    }
}

impl View for ServerBuilder {
    type V = ServerBuilderView;

    closed spec fn view(&self) -> ServerBuilderView {
        ServerBuilderView {
            image: self.image.deep_view(),
            tag: self.tag.deep_view(),
            port: self.port,
            envs: self.envs.deep_view(),
            wait: self.wait.deep_view(),
        }
    }
}

impl ServerBuilder {
    /// Set the name of the image.
    pub fn image(self, image: &str) -> (builder: ServerBuilder)
        ensures
            builder@ == (ServerBuilderView { image: Some(image@), ..self@ }),
    {
        ServerBuilder { image: Some(image.to_owned()), ..self }
    }

    /// Set the tag of the image.
    pub fn tag(self, tag: &str) -> (builder: ServerBuilder)
        ensures
            builder@ == (ServerBuilderView { tag: Some(tag@), ..self@ }),
    {
        ServerBuilder { tag: Some(tag.to_owned()), ..self }
    }

    /// Set the port that the server listens on.
    pub fn port(self, port: u16) -> (builder: ServerBuilder)
        ensures
            builder@ == (ServerBuilderView { port: Some(port), ..self@ }),
    {
        ServerBuilder { port: Some(port), ..self }
    }

    /// Add an environment variable, after those that were added before.
    pub fn env(self, name: &str, value: &str) -> (builder: ServerBuilder)
        ensures
            builder@ == self@.env(name@, value@),
    {
        let mut builder = self;
        let ghost before = builder.envs.deep_view();
        builder.envs.push(Variable::new(name, value));
        assert(builder.envs.deep_view() =~= before.push(
            VariableView { name: name@, value: value@ },
        ));
        builder
    }

    /// Set the condition to wait for, in place of one that was set before.
    pub fn wait(self, wait: WaitFor) -> (builder: ServerBuilder)
        ensures
            builder@ == (ServerBuilderView { wait: Some(wait@), ..self@ }),
    {
        ServerBuilder { wait: Some(wait), ..self }
    }

    /// Build the server, or say what is wrong with the fields.
    pub fn build(self) -> (built: Result<Server, ValidationError>)
        ensures
            match built {
                Ok(server) => self@.problem() is None && server@ == self@.server()
                    && server@.valid(),
                Err(error) => self@.problem() == Some(error),
            },
    {
        let image = match self.image {
            Some(image) => image,
            None => {
                return Err(ValidationError::Missing(Field::Image));
            },
        };
        if image.as_str().unicode_len() == 0 {
            return Err(ValidationError::Invalid(Field::Image));
        }
        let tag = match self.tag {
            Some(tag) => tag,
            None => {
                return Err(ValidationError::Missing(Field::Tag));
            },
        };
        if tag.as_str().unicode_len() == 0 {
            return Err(ValidationError::Invalid(Field::Tag));
        }
        let port = match self.port {
            Some(port) => port,
            None => {
                return Err(ValidationError::Missing(Field::Port));
            },
        };
        if port == 0 {
            return Err(ValidationError::Invalid(Field::Port));
        }
        Ok(Server { image, tag, port, envs: self.envs, wait: self.wait })
    }
}

} // verus!
