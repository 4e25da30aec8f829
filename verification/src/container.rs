//! What a container is started with

use vstd::prelude::*;
use crate::environment::{clone_variables, Variable, VariableView};
use crate::network::{Host, Hosts, IpAddress, DOCKER_HOST, SERVER_HOST};
use crate::server::{Server, ServerView};
use crate::service::{Service, ServiceView};
use crate::wait::{clone_wait, LogSource, WaitFor, WaitForView};

verus! {

/// The image of the container that drives the browser
pub const DRIVER_IMAGE: &'static str = "selenium/standalone-firefox";

/// The tag of the image of the container that drives the browser
pub const DRIVER_TAG: &'static str = "latest";

/// The port on which the container that drives the browser takes commands
pub const DRIVER_PORT: u16 = 4444;

/// The line in its output by which the container that drives the browser says that it is ready
pub const DRIVER_READY: &'static str = "Started Selenium Standalone";

/// One of the containers of a test run.
#[derive(Clone, Copy, Debug, PartialEq, Eq, Hash, Structural)]
pub enum Role {
    /// The container that drives the browser. It is shared by all tests.
    Driver,
    /// The container of the server that is tested
    Server,
    /// The container of the service with the given position among the declared services
    Service(usize),
}

/// Everything that is needed to start a container.
#[derive(Debug)]
pub struct ContainerRequest {
    image: String,
    tag: String,
    port: Option<u16>,
    envs: Vec<Variable>,
    hosts: Hosts,
    wait: Option<WaitFor>,
}

/// What a [`ContainerRequest`] stands for.
pub ghost struct ContainerRequestView {
    /// The name of the image
    pub image: Seq<char>,
    /// The tag of the image
    pub tag: Seq<char>,
    /// The port of the container that is made reachable from outside, if there is one
    pub port: Option<u16>,
    /// The environment variables of the container, in the order in which they are applied
    pub envs: Seq<VariableView>,
    /// The host names that the container can resolve, with what they stand for
    pub hosts: Map<Seq<char>, Host>,
    /// The condition that is waited for after the start, if there is one
    pub wait: Option<WaitForView>,
}

/// The request for the container that drives the browser: a fixed image with its command port,
/// ready when its output says so, and able to reach the machine that runs the tests.
pub open spec fn driver_request() -> ContainerRequestView {
    ContainerRequestView {
        image: DRIVER_IMAGE@,
        tag: DRIVER_TAG@,
        port: Some(DRIVER_PORT),
        envs: Seq::empty(),
        hosts: Map::empty().insert(DOCKER_HOST@, Host::HostGateway),
        wait: Some(WaitForView::Log { source: LogSource::StdOut, message: DRIVER_READY@ }),
    }
}

/// The request for the container of a service: its image, its variables and its condition. The
/// container reaches the machine that runs the tests, and through it the server, under two
/// fixed names.
pub open spec fn service_request(service: ServiceView) -> ContainerRequestView {
    ContainerRequestView {
        image: service.image,
        tag: service.tag,
        port: None,
        envs: service.envs,
        hosts: Map::empty().insert(DOCKER_HOST@, Host::HostGateway).insert(
            SERVER_HOST@,
            Host::HostGateway,
        ),
        wait: service.wait,
    }
}

/// The host names of the server's container after the first `count` services have been
/// registered: the name of the machine that runs the tests, and the image name of each service
/// with the address of its container. The services are registered in their order, so that of
/// two services with one image name the later one is reached under it.
pub open spec fn aliases(
    images: Seq<Seq<char>>,
    addresses: Seq<IpAddress>,
    count: nat,
) -> Map<Seq<char>, Host>
    decreases count,
{
    if count == 0 {
        Map::empty().insert(DOCKER_HOST@, Host::HostGateway)
    } else {
        aliases(images, addresses, (count - 1) as nat).insert(
            images[count - 1],
            Host::Addr(addresses[count - 1]),
        )
    }
}

/// The number of services that have an address.
pub open spec fn addressed(images: Seq<Seq<char>>, addresses: Seq<IpAddress>) -> nat {
    if images.len() <= addresses.len() {
        images.len()
    } else {
        addresses.len()
    }
}

/// The host names of the server's container, given the image names of the services and the
/// addresses of their containers.
pub open spec fn server_hosts(images: Seq<Seq<char>>, addresses: Seq<IpAddress>) -> Map<
    Seq<char>,
    Host,
> {
    aliases(images, addresses, addressed(images, addresses))
}

/// The image names of the services.
pub open spec fn images_of(services: Seq<ServiceView>) -> Seq<Seq<char>> {
    Seq::new(services.len(), |i: int| services[i].image)
}

/// The request for the container of the server: its image, its port, its variables and its
/// condition, with the host names of the services.
pub open spec fn server_request(
    server: ServerView,
    services: Seq<ServiceView>,
    addresses: Seq<IpAddress>,
) -> ContainerRequestView {
    ContainerRequestView {
        image: server.image,
        tag: server.tag,
        port: Some(server.port),
        envs: server.envs,
        hosts: server_hosts(images_of(services), addresses),
        wait: server.wait,
    }
}

/// A service is reached under its image name at the address of its container, unless a later
/// service has the same image name.
pub proof fn lemma_later_alias_wins(images: Seq<Seq<char>>, addresses: Seq<IpAddress>, i: int)
    requires
        0 <= i < addressed(images, addresses),
        forall|j: int| i < j < addressed(images, addresses) ==> images[j] != images[i],
    ensures
        server_hosts(images, addresses).contains_pair(images[i], Host::Addr(addresses[i])),
{
    lemma_alias_kept(images, addresses, i, addressed(images, addresses));
}

proof fn lemma_alias_kept(images: Seq<Seq<char>>, addresses: Seq<IpAddress>, i: int, count: nat)
    requires
        0 <= i < count,
        forall|j: int| i < j < count ==> images[j] != images[i],
    ensures
        aliases(images, addresses, count).contains_pair(images[i], Host::Addr(addresses[i])),
    decreases count,
{
    if i < count - 1 {
        lemma_alias_kept(images, addresses, i, (count - 1) as nat);
    }
}

/// The host names of the server's container are the name of the machine that runs the tests
/// and the image names of the services that have an address, and no others.
pub proof fn lemma_alias_names(images: Seq<Seq<char>>, addresses: Seq<IpAddress>, name: Seq<char>)
    ensures
        server_hosts(images, addresses).contains_key(name) <==> name == DOCKER_HOST@ || exists|
            i: int,
        |
            0 <= i < addressed(images, addresses) && #[trigger] images[i] == name,
{
    lemma_alias_domain(images, addresses, name, addressed(images, addresses));
}

proof fn lemma_alias_domain(
    images: Seq<Seq<char>>,
    addresses: Seq<IpAddress>,
    name: Seq<char>,
    count: nat,
)
    ensures
        aliases(images, addresses, count).contains_key(name) <==> name == DOCKER_HOST@ || exists|
            i: int,
        |
            0 <= i < count && #[trigger] images[i] == name,
    decreases count,
{
    if count > 0 {
        lemma_alias_domain(images, addresses, name, (count - 1) as nat);
        if images[count - 1] == name {
        } else if exists|i: int| 0 <= i < count && #[trigger] images[i] == name {
            let i = choose|i: int| 0 <= i < count && #[trigger] images[i] == name;
            assert(i < count - 1);
        }
    }
}

/// The server reaches the machine that runs the tests under its fixed name, unless a service
/// has that name as its image name.
pub proof fn lemma_gateway_alias(images: Seq<Seq<char>>, addresses: Seq<IpAddress>)
    requires
        forall|i: int| 0 <= i < addressed(images, addresses) ==> images[i] != DOCKER_HOST@,
    ensures
        server_hosts(images, addresses).contains_pair(DOCKER_HOST@, Host::HostGateway),
{
    lemma_gateway_kept(images, addresses, addressed(images, addresses));
}

proof fn lemma_gateway_kept(images: Seq<Seq<char>>, addresses: Seq<IpAddress>, count: nat)
    requires
        forall|i: int| 0 <= i < count ==> images[i] != DOCKER_HOST@,
    ensures
        aliases(images, addresses, count).contains_pair(DOCKER_HOST@, Host::HostGateway),
    decreases count,
{
    if count > 0 {
        lemma_gateway_kept(images, addresses, (count - 1) as nat);
    }
}

impl View for ContainerRequest {
    type V = ContainerRequestView;

    closed spec fn view(&self) -> ContainerRequestView {
        ContainerRequestView {
            image: self.image@,
            tag: self.tag@,
            port: self.port,
            envs: self.envs.deep_view(),
            hosts: self.hosts@,
            wait: self.wait.deep_view(),
        }
    }
}

impl DeepView for ContainerRequest {
    type V = ContainerRequestView;

    open spec fn deep_view(&self) -> ContainerRequestView {
        self@
    }
}

impl ContainerRequest {
    /// The request for the container that drives the browser.
    pub fn driver() -> (request: ContainerRequest)
        ensures
            request@ == driver_request(),
    {
        let request = ContainerRequest {
            image: DRIVER_IMAGE.to_owned(),
            tag: DRIVER_TAG.to_owned(),
            port: Some(DRIVER_PORT),
            envs: Vec::new(),
            hosts: Hosts::new().insert(DOCKER_HOST, Host::HostGateway),
            wait: Some(WaitFor::message_on_stdout(DRIVER_READY)),
        };
        assert(request.envs.deep_view() =~= Seq::empty());
        request
    }

    /// The request for the container of a service.
    pub fn service(service: &Service) -> (request: ContainerRequest)
        ensures
            request@ == service_request(service@),
    {
        ContainerRequest {
            image: service.image().clone(),
            tag: service.tag().clone(),
            port: None,
            envs: clone_variables(service.envs()),
            hosts: Hosts::new().insert(DOCKER_HOST, Host::HostGateway).insert(
                SERVER_HOST,
                Host::HostGateway,
            ),
            wait: clone_wait(service.wait()),
        }
    }

    /// The request for the container of the server, given the services and the addresses of
    /// their containers: the address at a position belongs to the service at that position.
    pub fn server(server: &Server, services: &Vec<Service>, addresses: &Vec<IpAddress>) -> (request:
        ContainerRequest)
        ensures
            request@ == server_request(server@, services.deep_view(), addresses@),
    {
        let ghost images = images_of(services.deep_view());
        let mut hosts = Hosts::new().insert(DOCKER_HOST, Host::HostGateway);
        let mut i: usize = 0;
        while i < services.len() && i < addresses.len()
            invariant
                i <= services.len(),
                i <= addresses.len(),
                images == images_of(services.deep_view()),
                hosts@ == aliases(images, addresses@, i as nat),
            decreases services.len() - i,
        {
            hosts = hosts.insert(services[i].image().as_str(), Host::Addr(addresses[i]));
            i += 1;
        }
        ContainerRequest {
            image: server.image().clone(),
            tag: server.tag().clone(),
            port: Some(server.port()),
            envs: clone_variables(server.envs()),
            hosts,
            wait: clone_wait(server.wait()),
        }
    }

    /// The name of the image
    pub fn image(&self) -> (image: &String)
        ensures
            image@ == self@.image,
    {
        &self.image
    }

    /// The tag of the image
    pub fn tag(&self) -> (tag: &String)
        ensures
            tag@ == self@.tag,
    {
        &self.tag
    }

    /// The port of the container that is made reachable from outside, if there is one
    pub fn port(&self) -> (port: Option<u16>)
        ensures
            port == self@.port,
    {
        self.port
    }

    /// The environment variables of the container, in the order in which they are applied
    pub fn envs(&self) -> (envs: &Vec<Variable>)
        ensures
            envs.deep_view() == self@.envs,
    {
        &self.envs
    }

    /// The host names that the container can resolve
    pub fn hosts(&self) -> (hosts: &Hosts)
        ensures
            hosts@ == self@.hosts,
    {
        &self.hosts
    }

    /// The condition that is waited for after the start, if there is one
    pub fn wait(&self) -> (wait: &Option<WaitFor>)
        ensures
            wait.deep_view() == self@.wait,
    {
        &self.wait
    }
}

} // verus!
