//! Test runner that executes each test in an environment of its own

use vstd::prelude::*;
use crate::container::{
    driver_request, server_request, service_request, ContainerRequest, ContainerRequestView, Role,
    DRIVER_PORT,
};
use crate::endpoint::{Endpoint, EndpointView};
use crate::network::{IpAddress, DOCKER_HOST};
use crate::report::{
    Completion, CompletionView, Failure, FailureView, Report, TeardownWarning, TestResult,
    TestResultView,
};
use crate::{Doco, DocoView};

verus! {

/// How often the server is asked whether it answers, at most, before a test goes on without an
/// answer
pub const PROBE_ATTEMPTS: u8 = 10;

/// The time between two such questions, in milliseconds
pub const PROBE_INTERVAL_MILLIS: u64 = 1000;

/// Where a test runner stands.
#[derive(Clone, Copy, Debug, PartialEq, Eq, Structural)]
pub enum Phase {
    /// The container that drives the browser is being started.
    Uninitialized,
    /// The container that drives the browser is up, and no test has run yet.
    DriverReady,
    /// The containers of a test are being started.
    Provisioning,
    /// The containers of a test are up. The server is asked whether it answers, and a session
    /// with the browser is opened.
    Ready,
    /// The body of a test runs.
    Executing,
    /// The environment of a test is taken down.
    TearingDown,
    /// A test is over and its environment is gone.
    Idle,
    /// No more tests run.
    Shutdown,
}

/// What a test runner has asked for and waits to hear about.
#[derive(Clone, Copy, Debug, PartialEq, Eq, Structural)]
pub enum Pending {
    /// Nothing
    Nothing,
    /// The start of a container
    Start(Role),
    /// The address of a container in the network of the containers
    InternalAddress(Role),
    /// The place where a container is reached from outside
    PublicEndpoint(Role),
    /// An answer of the server
    Probe,
    /// A session with the browser
    Connect,
    /// The end of the body of the test
    Execute,
    /// The end of the session with the browser
    Disconnect,
    /// The stop of a container
    Stop(Role),
}

/// What the caller is asked to do next. All but the last four are answered with an [`Event`].
#[derive(Debug)]
pub enum Action {
    /// Start a container and wait until it is ready.
    Start { role: Role, request: ContainerRequest },
    /// Find the address of a container in the network of the containers.
    ResolveInternalAddress { role: Role },
    /// Find the place where a port of a container is reached from outside.
    ResolvePublicEndpoint { role: Role, port: u16 },
    /// Wait for the given time, then send a plain request to the URL.
    Probe { url: String, delay_millis: u64 },
    /// Open a session with the browser at the URL.
    Connect { url: String },
    /// Announce the test and run its body in a worker of its own, with a client whose paths are
    /// relative to the base URL.
    Execute { name: String, base_url: String },
    /// Close the session with the browser.
    Disconnect,
    /// Stop a container. Stopping one that never came up is no error.
    Stop { role: Role },
    /// Nothing: the runner is ready to run tests.
    Ready,
    /// Nothing: the test is over, and this is its result.
    Done(TestResult),
    /// Nothing: the runner could not be set up and runs no tests.
    Failed(Failure),
    /// Nothing: the runner has shut down.
    Closed,
}

/// What an [`Action`] stands for.
pub ghost enum ActionView {
    Start { role: Role, request: ContainerRequestView },
    ResolveInternalAddress { role: Role },
    ResolvePublicEndpoint { role: Role, port: u16 },
    Probe { url: Seq<char>, delay_millis: u64 },
    Connect { url: Seq<char> },
    Execute { name: Seq<char>, base_url: Seq<char> },
    Disconnect,
    Stop { role: Role },
    Ready,
    Done(TestResultView),
    Failed(FailureView),
    Closed,
}

impl View for Action {
    type V = ActionView;

    open spec fn view(&self) -> ActionView {
        match self {
            Action::Start { role, request } => ActionView::Start { role: *role, request: request@ },
            Action::ResolveInternalAddress { role } => ActionView::ResolveInternalAddress {
                role: *role,
            },
            Action::ResolvePublicEndpoint { role, port } => ActionView::ResolvePublicEndpoint {
                role: *role,
                port: *port,
            },
            Action::Probe { url, delay_millis } => ActionView::Probe {
                url: url@,
                delay_millis: *delay_millis,
            },
            Action::Connect { url } => ActionView::Connect { url: url@ },
            Action::Execute { name, base_url } => ActionView::Execute {
                name: name@,
                base_url: base_url@,
            },
            Action::Disconnect => ActionView::Disconnect,
            Action::Stop { role } => ActionView::Stop { role: *role },
            Action::Ready => ActionView::Ready,
            Action::Done(result) => ActionView::Done(result@),
            Action::Failed(failure) => ActionView::Failed(failure@),
            Action::Closed => ActionView::Closed,
        }
    }
}

impl DeepView for Action {
    type V = ActionView;

    open spec fn deep_view(&self) -> ActionView {
        self@
    }
}

/// What the caller reports after it has done what an [`Action`] asked for.
#[derive(Debug)]
pub enum Event {
    /// The container was started and is ready.
    Started,
    /// The container could not be started, or did not become ready in time.
    StartFailed(String),
    /// The address of the container in the network of the containers
    InternalAddress(IpAddress),
    /// The place where the port of the container is reached from outside
    PublicEndpoint(Endpoint),
    /// The container could not be located.
    Unresolved(String),
    /// Whether the server answered the request
    Probed(bool),
    /// The session with the browser is open.
    Connected,
    /// No session with the browser could be opened.
    ConnectFailed(String),
    /// The worker that ran the body of the test has ended.
    Executed(Completion),
    /// The session with the browser was given up; whether it could be closed properly
    Disconnected(bool),
    /// The container was given up; whether it could be stopped properly
    Stopped(bool),
}

/// What an [`Event`] stands for.
pub ghost enum EventView {
    Started,
    StartFailed(Seq<char>),
    InternalAddress(IpAddress),
    PublicEndpoint(EndpointView),
    Unresolved(Seq<char>),
    Probed(bool),
    Connected,
    ConnectFailed(Seq<char>),
    Executed(CompletionView),
    Disconnected(bool),
    Stopped(bool),
}

impl View for Event {
    type V = EventView;

    open spec fn view(&self) -> EventView {
        match self {
            Event::Started => EventView::Started,
            Event::StartFailed(message) => EventView::StartFailed(message@),
            Event::InternalAddress(address) => EventView::InternalAddress(*address),
            Event::PublicEndpoint(endpoint) => EventView::PublicEndpoint(endpoint@),
            Event::Unresolved(message) => EventView::Unresolved(message@),
            Event::Probed(answered) => EventView::Probed(*answered),
            Event::Connected => EventView::Connected,
            Event::ConnectFailed(message) => EventView::ConnectFailed(message@),
            Event::Executed(completion) => EventView::Executed(completion@),
            Event::Disconnected(closed) => EventView::Disconnected(*closed),
            Event::Stopped(stopped) => EventView::Stopped(*stopped),
        }
    }
}

/// The environment of the test that runs: everything that exists for this test only.
pub ghost struct EnvironmentView {
    /// The name of the test
    pub name: Seq<char>,
    /// The containers whose start has been asked for and whose stop has not been reported yet,
    /// in the order in which they were started
    pub live: Seq<Role>,
    /// The addresses of the containers of the services, in the order of the services
    pub addresses: Seq<IpAddress>,
    /// The place where the server is reached from outside, once it is known
    pub endpoint: Option<EndpointView>,
    /// How often the server has been asked whether it answers
    pub probes: nat,
    /// Whether a session with the browser is open
    pub session: bool,
    /// Why the test does not pass, once that is known
    pub failure: Option<FailureView>,
    /// What has gone wrong while the environment was taken down
    pub warnings: Seq<TeardownWarning>,
}

impl EnvironmentView {
    /// The environment of a test before anything has been started for it.
    pub open spec fn new(name: Seq<char>) -> EnvironmentView {
        EnvironmentView {
            name,
            live: Seq::empty(),
            addresses: Seq::empty(),
            endpoint: None,
            probes: 0,
            session: false,
            failure: None,
            warnings: Seq::empty(),
        }
    }

    /// The result that the test is reported with.
    pub open spec fn result(self) -> TestResultView {
        TestResultView { name: self.name, failure: self.failure, warnings: self.warnings }
    }

    /// Nothing has been started and nothing is known yet.
    pub open spec fn untouched(self) -> bool {
        &&& self.endpoint is None
        &&& self.probes == 0
        &&& !self.session
        &&& self.failure is None
        &&& self.warnings.len() == 0
    }
}

/// What outlives a test: the configuration, the place where the container that drives the
/// browser is reached, and the results of the tests that have run.
pub ghost struct BaseView {
    pub doco: DocoView,
    pub driver: Option<EndpointView>,
    pub report: Seq<TestResultView>,
}

/// What a [`TestRunner`] stands for.
pub ghost struct RunnerView {
    pub base: BaseView,
    pub phase: Phase,
    pub pending: Pending,
    /// Why the runner could not be set up, if it could not
    pub fatal: Option<FailureView>,
    /// The environment of the test that runs, if one runs
    pub environment: Option<EnvironmentView>,
}

/// The first `count` containers of a test in the order in which they are started: the services
/// in their order, then the server.
pub open spec fn started(services: nat, count: nat) -> Seq<Role> {
    Seq::new(
        count,
        |i: int|
            if i < services {
                Role::Service(i as usize)
            } else {
                Role::Server
            },
    )
}

impl RunnerView {
    /// The runner before anything has happened, and the first thing to do: to start the
    /// container that drives the browser.
    pub open spec fn init(doco: DocoView) -> (RunnerView, ActionView) {
        (
            RunnerView {
                base: BaseView { doco, driver: None, report: Seq::empty() },
                phase: Phase::Uninitialized,
                pending: Pending::Start(Role::Driver),
                fatal: None,
                environment: None,
            },
            ActionView::Start { role: Role::Driver, request: driver_request() },
        )
    }

    /// No test runs, and one can be started.
    pub open spec fn idle(self) -> bool {
        self.pending == Pending::Nothing && (self.phase == Phase::DriverReady || self.phase
            == Phase::Idle)
    }

    /// The test is over: its result joins the report, and its environment is gone.
    pub open spec fn finish(base: BaseView, env: EnvironmentView) -> (RunnerView, ActionView) {
        (
            RunnerView {
                base: BaseView { report: base.report.push(env.result()), ..base },
                phase: Phase::Idle,
                pending: Pending::Nothing,
                fatal: None,
                environment: None,
            },
            ActionView::Done(env.result()),
        )
    }

    /// Stop the container that was started last, or finish where none is left.
    pub open spec fn stop_next(base: BaseView, env: EnvironmentView) -> (RunnerView, ActionView) {
        if env.live.len() == 0 {
            Self::finish(base, env)
        } else {
            (
                RunnerView {
                    base,
                    phase: Phase::TearingDown,
                    pending: Pending::Stop(env.live.last()),
                    fatal: None,
                    environment: Some(env),
                },
                ActionView::Stop { role: env.live.last() },
            )
        }
    }

    /// Take the environment down: close the session if one is open, then stop the containers.
    pub open spec fn teardown(base: BaseView, env: EnvironmentView) -> (RunnerView, ActionView) {
        if env.session {
            (
                RunnerView {
                    base,
                    phase: Phase::TearingDown,
                    pending: Pending::Disconnect,
                    fatal: None,
                    environment: Some(env),
                },
                ActionView::Disconnect,
            )
        } else {
            Self::stop_next(base, env)
        }
    }

    /// The test fails for the given reason, and its environment is taken down.
    pub open spec fn fail(base: BaseView, env: EnvironmentView, failure: FailureView) -> (
        RunnerView,
        ActionView,
    ) {
        Self::teardown(base, EnvironmentView { failure: Some(failure), ..env })
    }

    /// Start the next container: the first service that has no address yet, or the server
    /// where every service has one.
    pub open spec fn provision_next(base: BaseView, env: EnvironmentView) -> (
        RunnerView,
        ActionView,
    ) {
        let position = env.addresses.len();
        let role = if position < base.doco.services.len() {
            Role::Service(position as usize)
        } else {
            Role::Server
        };
        let request = if position < base.doco.services.len() {
            service_request(base.doco.services[position as int])
        } else {
            server_request(base.doco.server, base.doco.services, env.addresses)
        };
        (
            RunnerView {
                base,
                phase: Phase::Provisioning,
                pending: Pending::Start(role),
                fatal: None,
                environment: Some(EnvironmentView { live: env.live.push(role), ..env }),
            },
            ActionView::Start { role, request },
        )
    }

    /// Ask the server whether it answers, after the given time.
    pub open spec fn probe(base: BaseView, env: EnvironmentView, delay_millis: u64) -> (
        RunnerView,
        ActionView,
    ) {
        (
            RunnerView {
                base,
                phase: Phase::Ready,
                pending: Pending::Probe,
                fatal: None,
                environment: Some(EnvironmentView { probes: env.probes + 1, ..env }),
            },
            ActionView::Probe { url: env.endpoint->0.url() + "/"@, delay_millis },
        )
    }

    /// Open a session with the browser.
    pub open spec fn connect(base: BaseView, env: EnvironmentView) -> (RunnerView, ActionView) {
        (
            RunnerView {
                base,
                phase: Phase::Ready,
                pending: Pending::Connect,
                fatal: None,
                environment: Some(env),
            },
            ActionView::Connect { url: base.driver->0.url() },
        )
    }

    /// Run the body of the test. The browser reaches the server through the machine that runs
    /// the tests, at the port under which the server is reached from outside.
    pub open spec fn execute(base: BaseView, env: EnvironmentView) -> (RunnerView, ActionView) {
        (
            RunnerView {
                base,
                phase: Phase::Executing,
                pending: Pending::Execute,
                fatal: None,
                environment: Some(EnvironmentView { session: true, ..env }),
            },
            ActionView::Execute {
                name: env.name,
                base_url: (EndpointView { host: DOCKER_HOST@, port: env.endpoint->0.port }).url(),
            },
        )
    }

    /// The runner cannot be set up for the given reason: the container that drives the browser
    /// is stopped, and no test will run.
    pub open spec fn abort(self, failure: FailureView) -> (RunnerView, ActionView) {
        (
            RunnerView {
                phase: Phase::Shutdown,
                pending: Pending::Stop(Role::Driver),
                fatal: Some(failure),
                ..self
            },
            ActionView::Stop { role: Role::Driver },
        )
    }

    /// Begin a test with the given name. Nothing happens unless the runner is idle.
    pub open spec fn run(self, name: Seq<char>) -> Option<(RunnerView, ActionView)> {
        if self.idle() {
            Some(Self::provision_next(self.base, EnvironmentView::new(name)))
        } else {
            None
        }
    }

    /// Stop the container that drives the browser. Nothing happens unless the runner is idle.
    pub open spec fn shutdown(self) -> Option<(RunnerView, ActionView)> {
        if self.idle() {
            Some(
                (
                    RunnerView {
                        phase: Phase::Shutdown,
                        pending: Pending::Stop(Role::Driver),
                        ..self
                    },
                    ActionView::Stop { role: Role::Driver },
                ),
            )
        } else {
            None
        }
    }

    /// What the runner becomes and asks for when it hears of an event, or nothing where the
    /// event does not answer what the runner waits for.
    pub open spec fn step(self, event: EventView) -> Option<(RunnerView, ActionView)> {
        let base = self.base;
        let env = self.environment->0;
        match (self.pending, event) {
            (Pending::Start(Role::Driver), EventView::Started) => Some(
                (
                    RunnerView { pending: Pending::PublicEndpoint(Role::Driver), ..self },
                    ActionView::ResolvePublicEndpoint { role: Role::Driver, port: DRIVER_PORT },
                ),
            ),
            (Pending::Start(Role::Driver), EventView::StartFailed(message)) => Some(
                self.abort(FailureView::Provision(message)),
            ),
            (Pending::PublicEndpoint(Role::Driver), EventView::PublicEndpoint(endpoint)) => Some(
                (
                    RunnerView {
                        base: BaseView { driver: Some(endpoint), ..base },
                        phase: Phase::DriverReady,
                        pending: Pending::Nothing,
                        ..self
                    },
                    ActionView::Ready,
                ),
            ),
            (Pending::PublicEndpoint(Role::Driver), EventView::Unresolved(message)) => Some(
                self.abort(FailureView::Provision(message)),
            ),
            (Pending::Stop(Role::Driver), EventView::Stopped(_)) => Some(
                (
                    RunnerView { pending: Pending::Nothing, ..self },
                    match self.fatal {
                        Some(failure) => ActionView::Failed(failure),
                        None => ActionView::Closed,
                    },
                ),
            ),
            (Pending::Start(Role::Service(position)), EventView::Started) => Some(
                (
                    RunnerView {
                        pending: Pending::InternalAddress(Role::Service(position)),
                        ..self
                    },
                    ActionView::ResolveInternalAddress { role: Role::Service(position) },
                ),
            ),
            (Pending::Start(Role::Server), EventView::Started) => Some(
                (
                    RunnerView { pending: Pending::PublicEndpoint(Role::Server), ..self },
                    ActionView::ResolvePublicEndpoint {
                        role: Role::Server,
                        port: base.doco.server.port,
                    },
                ),
            ),
            (Pending::Start(Role::Service(_)), EventView::StartFailed(message)) => Some(
                Self::fail(base, env, FailureView::Provision(message)),
            ),
            (Pending::Start(Role::Server), EventView::StartFailed(message)) => Some(
                Self::fail(base, env, FailureView::Provision(message)),
            ),
            (Pending::InternalAddress(Role::Service(_)), EventView::InternalAddress(address)) => Some(
                Self::provision_next(
                    base,
                    EnvironmentView { addresses: env.addresses.push(address), ..env },
                ),
            ),
            (Pending::InternalAddress(Role::Service(_)), EventView::Unresolved(message)) => Some(
                Self::fail(base, env, FailureView::Provision(message)),
            ),
            (Pending::PublicEndpoint(Role::Server), EventView::PublicEndpoint(endpoint)) => Some(
                Self::probe(base, EnvironmentView { endpoint: Some(endpoint), ..env }, 0),
            ),
            (Pending::PublicEndpoint(Role::Server), EventView::Unresolved(message)) => Some(
                Self::fail(base, env, FailureView::Provision(message)),
            ),
            (Pending::Probe, EventView::Probed(answered)) => if !answered && env.probes
                < PROBE_ATTEMPTS {
                Some(Self::probe(base, env, PROBE_INTERVAL_MILLIS))
            } else {
                Some(Self::connect(base, env))
            },
            (Pending::Connect, EventView::Connected) => Some(Self::execute(base, env)),
            (Pending::Connect, EventView::ConnectFailed(message)) => Some(
                Self::fail(base, env, FailureView::Connection(message)),
            ),
            (Pending::Execute, EventView::Executed(completion)) => Some(
                Self::teardown(base, EnvironmentView { failure: completion.failure(), ..env }),
            ),
            (Pending::Disconnect, EventView::Disconnected(closed)) => Some(
                Self::stop_next(
                    base,
                    EnvironmentView {
                        session: false,
                        warnings: if closed {
                            env.warnings
                        } else {
                            env.warnings.push(TeardownWarning::Disconnect)
                        },
                        ..env
                    },
                ),
            ),
            (Pending::Stop(Role::Service(position)), EventView::Stopped(stopped)) => Some(
                Self::stop_next(
                    base,
                    EnvironmentView {
                        live: env.live.drop_last(),
                        warnings: if stopped {
                            env.warnings
                        } else {
                            env.warnings.push(TeardownWarning::Stop(Role::Service(position)))
                        },
                        ..env
                    },
                ),
            ),
            (Pending::Stop(Role::Server), EventView::Stopped(stopped)) => Some(
                Self::stop_next(
                    base,
                    EnvironmentView {
                        live: env.live.drop_last(),
                        warnings: if stopped {
                            env.warnings
                        } else {
                            env.warnings.push(TeardownWarning::Stop(Role::Server))
                        },
                        ..env
                    },
                ),
            ),
            _ => None,
        }
    }

    /// What holds of every runner: what it waits for fits the phase that it is in, the
    /// environment of a test exists exactly while the test runs, and the containers of the
    /// environment are the first ones in the order in which they are started.
    pub open spec fn inv(self) -> bool {
        let services = self.base.doco.services.len();
        let env = self.environment->0;
        &&& services <= usize::MAX
        &&& self.fatal is Some ==> self.phase == Phase::Shutdown
        &&& match self.phase {
            Phase::Uninitialized => {
                &&& self.pending == Pending::Start(Role::Driver) || self.pending
                    == Pending::PublicEndpoint(Role::Driver)
                &&& self.base.driver is None
                &&& self.base.report.len() == 0
                &&& self.environment is None
            },
            Phase::DriverReady => {
                &&& self.pending == Pending::Nothing
                &&& self.base.driver is Some
                &&& self.base.report.len() == 0
                &&& self.environment is None
            },
            Phase::Idle => {
                &&& self.pending == Pending::Nothing
                &&& self.base.driver is Some
                &&& self.base.report.len() > 0
                &&& self.environment is None
            },
            Phase::Shutdown => {
                &&& self.pending == Pending::Stop(Role::Driver) || self.pending
                    == Pending::Nothing
                &&& self.environment is None
            },
            Phase::Provisioning => {
                &&& self.base.driver is Some
                &&& self.environment is Some
                &&& env.untouched()
                &&& env.live == started(services, env.addresses.len() + 1)
                &&& if env.addresses.len() < services {
                    let role = Role::Service(env.addresses.len() as usize);
                    self.pending == Pending::Start(role) || self.pending
                        == Pending::InternalAddress(role)
                } else {
                    &&& env.addresses.len() == services
                    &&& self.pending == Pending::Start(Role::Server) || self.pending
                        == Pending::PublicEndpoint(Role::Server)
                }
            },
            Phase::Ready => {
                &&& self.base.driver is Some
                &&& self.environment is Some
                &&& env.live == started(services, services + 1)
                &&& env.addresses.len() == services
                &&& env.endpoint is Some
                &&& 1 <= env.probes <= PROBE_ATTEMPTS
                &&& !env.session
                &&& env.failure is None
                &&& env.warnings.len() == 0
                &&& self.pending == Pending::Probe || self.pending == Pending::Connect
            },
            Phase::Executing => {
                &&& self.base.driver is Some
                &&& self.environment is Some
                &&& env.live == started(services, services + 1)
                &&& env.addresses.len() == services
                &&& env.endpoint is Some
                &&& 1 <= env.probes <= PROBE_ATTEMPTS
                &&& env.session
                &&& env.failure is None
                &&& env.warnings.len() == 0
                &&& self.pending == Pending::Execute
            },
            Phase::TearingDown => {
                &&& self.base.driver is Some
                &&& self.environment is Some
                &&& env.live.len() <= services + 1
                &&& env.live == started(services, env.live.len())
                &&& env.probes <= PROBE_ATTEMPTS
                &&& if env.session {
                    self.pending == Pending::Disconnect
                } else {
                    env.live.len() > 0 && self.pending == Pending::Stop(env.live.last())
                }
            },
        }
    }
}

/// The containers in the order of their start: one more is the next service, or the server
/// after the last service; one less is the same list without its last container.
pub proof fn lemma_started(services: nat, count: nat)
    requires
        services <= usize::MAX,
    ensures
        started(services, count + 1) == started(services, count).push(
            if count < services {
                Role::Service(count as usize)
            } else {
                Role::Server
            },
        ),
        started(services, count + 1).drop_last() == started(services, count),
        started(services, 0) == Seq::<Role>::empty(),
{
    assert(started(services, count + 1) =~= started(services, count).push(
        if count < services {
            Role::Service(count as usize)
        } else {
            Role::Server
        },
    ));
    assert(started(services, count + 1).drop_last() =~= started(services, count));
    assert(started(services, 0) =~= Seq::<Role>::empty());
}

/// A runner that has just been made is as every runner is.
pub proof fn lemma_init_inv(doco: DocoView)
    requires
        doco.services.len() <= usize::MAX,
    ensures
        RunnerView::init(doco).0.inv(),
{
}

/// A runner that begins a test is as every runner is.
pub proof fn lemma_run_inv(runner: RunnerView, name: Seq<char>)
    requires
        runner.inv(),
        runner.run(name) is Some,
    ensures
        (runner.run(name)->0).0.inv(),
{
    lemma_started(runner.base.doco.services.len(), 0);
}

/// A runner that shuts down is as every runner is.
pub proof fn lemma_shutdown_inv(runner: RunnerView)
    requires
        runner.inv(),
        runner.shutdown() is Some,
    ensures
        (runner.shutdown()->0).0.inv(),
{
}

/// A runner that has heard of an event is as every runner is.
pub proof fn lemma_step_inv(runner: RunnerView, event: EventView)
    requires
        runner.inv(),
        runner.step(event) is Some,
    ensures
        (runner.step(event)->0).0.inv(),
{
    let services = runner.base.doco.services.len();
    if runner.environment is Some {
        let env = runner.environment->0;
        lemma_started(services, env.addresses.len());
        lemma_started(services, env.addresses.len() + 1);
        if env.live.len() > 0 {
            lemma_started(services, (env.live.len() - 1) as nat);
        }
    }
}

struct Environment {
    name: String,
    live: Vec<Role>,
    addresses: Vec<IpAddress>,
    endpoint: Option<Endpoint>,
    probes: u8,
    session: bool,
    failure: Option<Failure>,
    warnings: Vec<TeardownWarning>,
}

impl View for Environment {
    type V = EnvironmentView;

    closed spec fn view(&self) -> EnvironmentView {
        EnvironmentView {
            name: self.name@,
            live: self.live@,
            addresses: self.addresses@,
            endpoint: self.endpoint.deep_view(),
            probes: self.probes as nat,
            session: self.session,
            failure: self.failure.deep_view(),
            warnings: self.warnings@,
        }
    }
}

impl DeepView for Environment {
    type V = EnvironmentView;

    closed spec fn deep_view(&self) -> EnvironmentView {
        self@
    }
}

struct Base {
    doco: Doco,
    driver: Option<Endpoint>,
    report: Report,
}

impl View for Base {
    type V = BaseView;

    closed spec fn view(&self) -> BaseView {
        BaseView { doco: self.doco@, driver: self.driver.deep_view(), report: self.report@ }
    }
}

/// Test runner for end-to-end tests
///
/// The `TestRunner` is responsible for executing each test in an isolated, ephemeral
/// environment. It does not start containers or drive a browser by itself. It says what has to
/// be done next, as an [`Action`], and is told how that went, as an [`Event`]: first to bring up
/// the container that drives the browser, then, for each test, to start the services and the
/// server, to wait for the server, to open a session, to run the body of the test, and to take
/// everything down again that was started for the test.
pub struct TestRunner {
    base: Base,
    phase: Phase,
    pending: Pending,
    fatal: Option<Failure>,
    environment: Option<Environment>,
}

impl View for TestRunner {
    type V = RunnerView;

    closed spec fn view(&self) -> RunnerView {
        RunnerView {
            base: self.base@,
            phase: self.phase,
            pending: self.pending,
            fatal: self.fatal.deep_view(),
            environment: self.environment.deep_view(),
        }
    }
}

impl TestRunner {
    #[verifier::type_invariant]
    spec fn well_formed(self) -> bool {
        self@.inv()
    }

    fn finish(base: Base, env: Environment) -> (next: (TestRunner, Action))
        requires
            RunnerView::finish(base@, env@).0.inv(),
        ensures
            (next.0@, next.1@) == RunnerView::finish(base@, env@),
    {
        let result = TestResult::new(env.name, env.failure, env.warnings);
        let base = Base {
            doco: base.doco,
            driver: base.driver,
            report: base.report.record(result.clone()),
        };
        (
            TestRunner {
                base,
                phase: Phase::Idle,
                pending: Pending::Nothing,
                fatal: None,
                environment: None,
            },
            Action::Done(result),
        )
    }

    fn stop_next(base: Base, env: Environment) -> (next: (TestRunner, Action))
        requires
            RunnerView::stop_next(base@, env@).0.inv(),
        ensures
            (next.0@, next.1@) == RunnerView::stop_next(base@, env@),
    {
        if env.live.len() == 0 {
            Self::finish(base, env)
        } else {
            let role = env.live[env.live.len() - 1];
            (
                TestRunner {
                    base,
                    phase: Phase::TearingDown,
                    pending: Pending::Stop(role),
                    fatal: None,
                    environment: Some(env),
                },
                Action::Stop { role },
            )
        }
    }

    fn teardown(base: Base, env: Environment) -> (next: (TestRunner, Action))
        requires
            RunnerView::teardown(base@, env@).0.inv(),
        ensures
            (next.0@, next.1@) == RunnerView::teardown(base@, env@),
    {
        if env.session {
            (
                TestRunner {
                    base,
                    phase: Phase::TearingDown,
                    pending: Pending::Disconnect,
                    fatal: None,
                    environment: Some(env),
                },
                Action::Disconnect,
            )
        } else {
            Self::stop_next(base, env)
        }
    }

    fn fail(base: Base, env: Environment, failure: Failure) -> (next: (TestRunner, Action))
        requires
            RunnerView::fail(base@, env@, failure@).0.inv(),
        ensures
            (next.0@, next.1@) == RunnerView::fail(base@, env@, failure@),
    {
        let mut env = env;
        env.failure = Some(failure);
        Self::teardown(base, env)
    }

    fn provision_next(base: Base, env: Environment) -> (next: (TestRunner, Action))
        requires
            RunnerView::provision_next(base@, env@).0.inv(),
        ensures
            (next.0@, next.1@) == RunnerView::provision_next(base@, env@),
    {
        let mut env = env;
        let position = env.addresses.len();
        let services = base.doco.services();
        let (role, request) = if position < services.len() {
            (Role::Service(position), ContainerRequest::service(&services[position]))
        } else {
            (Role::Server, ContainerRequest::server(base.doco.server(), services, &env.addresses))
        };
        env.live.push(role);
        (
            TestRunner {
                base,
                phase: Phase::Provisioning,
                pending: Pending::Start(role),
                fatal: None,
                environment: Some(env),
            },
            Action::Start { role, request },
        )
    }

    fn probe(base: Base, env: Environment, delay_millis: u64) -> (next: (TestRunner, Action))
        requires
            RunnerView::probe(base@, env@, delay_millis).0.inv(),
            env@.endpoint is Some,
            env@.probes < PROBE_ATTEMPTS,
        ensures
            (next.0@, next.1@) == RunnerView::probe(base@, env@, delay_millis),
    {
        let mut env = env;
        let url = match &env.endpoint {
            Some(endpoint) => endpoint.url().concat("/"),
            None => String::new(),
        };
        env.probes = env.probes + 1;
        (
            TestRunner {
                base,
                phase: Phase::Ready,
                pending: Pending::Probe,
                fatal: None,
                environment: Some(env),
            },
            Action::Probe { url, delay_millis },
        )
    }

    fn connect(base: Base, env: Environment) -> (next: (TestRunner, Action))
        requires
            RunnerView::connect(base@, env@).0.inv(),
        ensures
            (next.0@, next.1@) == RunnerView::connect(base@, env@),
    {
        let url = match &base.driver {
            Some(driver) => driver.url(),
            None => String::new(),
        };
        (
            TestRunner {
                base,
                phase: Phase::Ready,
                pending: Pending::Connect,
                fatal: None,
                environment: Some(env),
            },
            Action::Connect { url },
        )
    }

    fn execute(base: Base, env: Environment) -> (next: (TestRunner, Action))
        requires
            RunnerView::execute(base@, env@).0.inv(),
        ensures
            (next.0@, next.1@) == RunnerView::execute(base@, env@),
    {
        let mut env = env;
        let base_url = match &env.endpoint {
            Some(endpoint) => Endpoint::new(DOCKER_HOST, endpoint.port()).url(),
            None => String::new(),
        };
        let name = env.name.clone();
        env.session = true;
        (
            TestRunner {
                base,
                phase: Phase::Executing,
                pending: Pending::Execute,
                fatal: None,
                environment: Some(env),
            },
            Action::Execute { name, base_url },
        )
    }

    /// Initialize the test runner with the given configuration
    ///
    /// The runner that is returned waits for the container that drives the browser, and the
    /// action asks to start it. No test can run before the runner has said [`Action::Ready`].
    pub fn init(doco: Doco) -> (next: (TestRunner, Action))
        ensures
            (next.0@, next.1@) == RunnerView::init(doco@),
            next.0@.inv(),
    {
        proof {
            doco.lemma_services_bounded();
            lemma_init_inv(doco@);
        }
        (
            TestRunner {
                base: Base { doco, driver: None, report: Report::new() },
                phase: Phase::Uninitialized,
                pending: Pending::Start(Role::Driver),
                fatal: None,
                environment: None,
            },
            Action::Start { role: Role::Driver, request: ContainerRequest::driver() },
        )
    }

    /// Run the test with the given name in an environment of its own
    ///
    /// Where the runner is idle, a new and empty environment is made for the test, and the
    /// action asks to start the first container of it. Where the runner is not idle, nothing
    /// changes and there is no action.
    pub fn run(self, name: &str) -> (next: (TestRunner, Option<Action>))
        ensures
            next.0@.inv(),
            match self@.run(name@) {
                Some((runner, action)) => next.0@ == runner && next.1.deep_view() == Some(action),
                None => next.0@ == self@ && next.1 is None,
            },
    {
        proof {
            use_type_invariant(&self);
            if self@.run(name@) is Some {
                lemma_run_inv(self@, name@);
            }
        }
        let idle = self.is_idle();
        if idle {
            let env = Environment {
                name: name.to_owned(),
                live: Vec::new(),
                addresses: Vec::new(),
                endpoint: None,
                probes: 0,
                session: false,
                failure: None,
                warnings: Vec::new(),
            };
            assert(env@ == EnvironmentView::new(name@));
            let (runner, action) = Self::provision_next(self.base, env);
            (runner, Some(action))
        } else {
            (self, None)
        }
    }

    /// Whether no test runs and one can be started
    pub fn is_idle(&self) -> (idle: bool)
        ensures
            idle == self@.idle(),
    {
        let waiting = match self.pending {
            Pending::Nothing => false,
            _ => true,
        };
        let resting = match self.phase {
            Phase::DriverReady => true,
            Phase::Idle => true,
            _ => false,
        };
        !waiting && resting
    }

    /// Shut the runner down: stop the container that drives the browser
    ///
    /// Where the runner is idle, it runs no tests from now on, and the action asks to stop the
    /// container. Where the runner is not idle, nothing changes and there is no action.
    pub fn shutdown(self) -> (next: (TestRunner, Option<Action>))
        ensures
            next.0@.inv(),
            match self@.shutdown() {
                Some((runner, action)) => next.0@ == runner && next.1.deep_view() == Some(action),
                None => next.0@ == self@ && next.1 is None,
            },
    {
        proof {
            use_type_invariant(&self);
        }
        let idle = self.is_idle();
        if idle {
            (
                TestRunner {
                    base: self.base,
                    phase: Phase::Shutdown,
                    pending: Pending::Stop(Role::Driver),
                    fatal: self.fatal,
                    environment: self.environment,
                },
                Some(Action::Stop { role: Role::Driver }),
            )
        } else {
            (self, None)
        }
    }

    /// Tell the runner how the action went that it asked for last
    ///
    /// The runner goes on to its next state and says what has to be done next. An event that
    /// does not answer what the runner waits for changes nothing, and there is no action.
    pub fn step(self, event: Event) -> (next: (TestRunner, Option<Action>))
        ensures
            next.0@.inv(),
            match self@.step(event@) {
                Some((runner, action)) => next.0@ == runner && next.1.deep_view() == Some(action),
                None => next.0@ == self@ && next.1 is None,
            },
    {
        proof {
            use_type_invariant(&self);
        }
        match self.pending {
            Pending::Nothing => (self, None),
            Pending::Start(Role::Driver) => self.step_driver(event),
            Pending::PublicEndpoint(Role::Driver) => self.step_driver(event),
            Pending::Stop(Role::Driver) => self.step_driver(event),
            Pending::Start(_) => self.step_provisioning(event),
            Pending::InternalAddress(_) => self.step_provisioning(event),
            Pending::PublicEndpoint(_) => self.step_provisioning(event),
            Pending::Probe => self.step_ready(event),
            Pending::Connect => self.step_ready(event),
            Pending::Execute => self.step_teardown(event),
            Pending::Disconnect => self.step_teardown(event),
            Pending::Stop(_) => self.step_teardown(event),
        }
    }

    fn step_driver(self, event: Event) -> (next: (TestRunner, Option<Action>))
        requires
            self@.pending == Pending::Start(Role::Driver) || self@.pending
                == Pending::PublicEndpoint(Role::Driver) || self@.pending == Pending::Stop(
                Role::Driver,
            ),
        ensures
            next.0@.inv(),
            match self@.step(event@) {
                Some((runner, action)) => next.0@ == runner && next.1.deep_view() == Some(action),
                None => next.0@ == self@ && next.1 is None,
            },
    {
        proof {
            use_type_invariant(&self);
            if self@.step(event@) is Some {
                lemma_step_inv(self@, event@);
            }
        }
        let TestRunner { base, phase, pending, fatal, environment } = self;
        match (pending, event) {
            (Pending::Start(Role::Driver), Event::Started) => (
                TestRunner {
                    base,
                    phase,
                    pending: Pending::PublicEndpoint(Role::Driver),
                    fatal,
                    environment,
                },
                Some(Action::ResolvePublicEndpoint { role: Role::Driver, port: DRIVER_PORT }),
            ),
            (Pending::Start(Role::Driver), Event::StartFailed(message)) => (
                TestRunner {
                    base,
                    phase: Phase::Shutdown,
                    pending: Pending::Stop(Role::Driver),
                    fatal: Some(Failure::Provision(message)),
                    environment,
                },
                Some(Action::Stop { role: Role::Driver }),
            ),
            (Pending::PublicEndpoint(Role::Driver), Event::PublicEndpoint(endpoint)) => (
                TestRunner {
                    base: Base { doco: base.doco, driver: Some(endpoint), report: base.report },
                    phase: Phase::DriverReady,
                    pending: Pending::Nothing,
                    fatal,
                    environment,
                },
                Some(Action::Ready),
            ),
            (Pending::PublicEndpoint(Role::Driver), Event::Unresolved(message)) => (
                TestRunner {
                    base,
                    phase: Phase::Shutdown,
                    pending: Pending::Stop(Role::Driver),
                    fatal: Some(Failure::Provision(message)),
                    environment,
                },
                Some(Action::Stop { role: Role::Driver }),
            ),
            (Pending::Stop(Role::Driver), Event::Stopped(_)) => {
                let action = match &fatal {
                    Some(failure) => Action::Failed(failure.clone()),
                    None => Action::Closed,
                };
                (
                    TestRunner { base, phase, pending: Pending::Nothing, fatal, environment },
                    Some(action),
                )
            },
            (pending, _) => (TestRunner { base, phase, pending, fatal, environment }, None),
        }
    }

    fn step_provisioning(self, event: Event) -> (next: (TestRunner, Option<Action>))
        requires
            self@.phase == Phase::Provisioning,
        ensures
            next.0@.inv(),
            match self@.step(event@) {
                Some((runner, action)) => next.0@ == runner && next.1.deep_view() == Some(action),
                None => next.0@ == self@ && next.1 is None,
            },
    {
        proof {
            use_type_invariant(&self);
            if self@.step(event@) is Some {
                lemma_step_inv(self@, event@);
            }
        }
        let TestRunner { base, phase, pending, fatal, environment } = self;
        match (pending, event) {
            (Pending::Start(Role::Service(position)), Event::Started) => (
                TestRunner {
                    base,
                    phase,
                    pending: Pending::InternalAddress(Role::Service(position)),
                    fatal,
                    environment,
                },
                Some(Action::ResolveInternalAddress { role: Role::Service(position) }),
            ),
            (Pending::Start(Role::Server), Event::Started) => {
                let port = base.doco.server().port();
                (
                    TestRunner {
                        base,
                        phase,
                        pending: Pending::PublicEndpoint(Role::Server),
                        fatal,
                        environment,
                    },
                    Some(Action::ResolvePublicEndpoint { role: Role::Server, port }),
                )
            },
            (Pending::Start(_), Event::StartFailed(message)) => {
                let (runner, action) = Self::fail(
                    base,
                    environment.unwrap(),
                    Failure::Provision(message),
                );
                (runner, Some(action))
            },
            (Pending::InternalAddress(_), Event::InternalAddress(address)) => {
                let mut env = environment.unwrap();
                env.addresses.push(address);
                let (runner, action) = Self::provision_next(base, env);
                (runner, Some(action))
            },
            (Pending::PublicEndpoint(_), Event::PublicEndpoint(endpoint)) => {
                let mut env = environment.unwrap();
                env.endpoint = Some(endpoint);
                let (runner, action) = Self::probe(base, env, 0);
                (runner, Some(action))
            },
            (Pending::InternalAddress(_), Event::Unresolved(message)) => {
                let (runner, action) = Self::fail(
                    base,
                    environment.unwrap(),
                    Failure::Provision(message),
                );
                (runner, Some(action))
            },
            (Pending::PublicEndpoint(_), Event::Unresolved(message)) => {
                let (runner, action) = Self::fail(
                    base,
                    environment.unwrap(),
                    Failure::Provision(message),
                );
                (runner, Some(action))
            },
            (pending, _) => (TestRunner { base, phase, pending, fatal, environment }, None),
        }
    }

    fn step_ready(self, event: Event) -> (next: (TestRunner, Option<Action>))
        requires
            self@.phase == Phase::Ready,
        ensures
            next.0@.inv(),
            match self@.step(event@) {
                Some((runner, action)) => next.0@ == runner && next.1.deep_view() == Some(action),
                None => next.0@ == self@ && next.1 is None,
            },
    {
        proof {
            use_type_invariant(&self);
            if self@.step(event@) is Some {
                lemma_step_inv(self@, event@);
            }
        }
        let TestRunner { base, phase, pending, fatal, environment } = self;
        match (pending, event) {
            (Pending::Probe, Event::Probed(answered)) => {
                let env = environment.unwrap();
                let (runner, action) = if !answered && env.probes < PROBE_ATTEMPTS {
                    Self::probe(base, env, PROBE_INTERVAL_MILLIS)
                } else {
                    Self::connect(base, env)
                };
                (runner, Some(action))
            },
            (Pending::Connect, Event::Connected) => {
                let (runner, action) = Self::execute(base, environment.unwrap());
                (runner, Some(action))
            },
            (Pending::Connect, Event::ConnectFailed(message)) => {
                let (runner, action) = Self::fail(
                    base,
                    environment.unwrap(),
                    Failure::Connection(message),
                );
                (runner, Some(action))
            },
            (pending, _) => (TestRunner { base, phase, pending, fatal, environment }, None),
        }
    }

    fn step_teardown(self, event: Event) -> (next: (TestRunner, Option<Action>))
        requires
            self@.phase == Phase::Executing || self@.phase == Phase::TearingDown,
        ensures
            next.0@.inv(),
            match self@.step(event@) {
                Some((runner, action)) => next.0@ == runner && next.1.deep_view() == Some(action),
                None => next.0@ == self@ && next.1 is None,
            },
    {
        proof {
            use_type_invariant(&self);
            if self@.step(event@) is Some {
                lemma_step_inv(self@, event@);
            }
        }
        let TestRunner { base, phase, pending, fatal, environment } = self;
        match (pending, event) {
            (Pending::Execute, Event::Executed(completion)) => {
                let mut env = environment.unwrap();
                env.failure = completion.failure();
                let (runner, action) = Self::teardown(base, env);
                (runner, Some(action))
            },
            (Pending::Disconnect, Event::Disconnected(closed)) => {
                let mut env = environment.unwrap();
                env.session = false;
                if !closed {
                    env.warnings.push(TeardownWarning::Disconnect);
                }
                let (runner, action) = Self::stop_next(base, env);
                (runner, Some(action))
            },
            (Pending::Stop(role), Event::Stopped(stopped)) => {
                let mut env = environment.unwrap();
                env.live.pop();
                if !stopped {
                    env.warnings.push(TeardownWarning::Stop(role));
                }
                let (runner, action) = Self::stop_next(base, env);
                (runner, Some(action))
            },
            (pending, _) => (TestRunner { base, phase, pending, fatal, environment }, None),
        }
    }

    /// The phase that the runner is in
    pub fn phase(&self) -> (phase: Phase)
        ensures
            phase == self@.phase,
            self@.inv(),
    {
        proof {
            use_type_invariant(self);
        }
        self.phase
    }

    /// What the runner waits for
    pub fn pending(&self) -> (pending: Pending)
        ensures
            pending == self@.pending,
    {
        self.pending
    }

    /// The configuration that the tests run with
    pub fn doco(&self) -> (doco: &Doco)
        ensures
            doco@ == self@.base.doco,
    {
        &self.base.doco
    }

    /// The place where the container that drives the browser is reached, once it is known
    pub fn driver(&self) -> (driver: &Option<Endpoint>)
        ensures
            driver.deep_view() == self@.base.driver,
    {
        &self.base.driver
    }

    /// The results of the tests that have run
    pub fn report(&self) -> (report: &Report)
        ensures
            report@ == self@.base.report,
    {
        &self.base.report
    }

    /// The containers that exist for the test that runs: those whose start has been asked for
    /// and whose stop has not been reported yet. Between two tests there are none.
    pub fn live(&self) -> (live: Vec<Role>)
        ensures
            live@ == match self@.environment {
                Some(environment) => environment.live,
                None => Seq::empty(),
            },
    {
        let mut live: Vec<Role> = Vec::new();
        match &self.environment {
            Some(environment) => {
                let mut i: usize = 0;
                while i < environment.live.len()
                    invariant
                        i <= environment.live.len(),
                        live@ == environment.live@.take(i as int),
                    decreases environment.live.len() - i,
                {
                    live.push(environment.live[i]);
                    assert(environment.live@.take(i + 1) =~= environment.live@.take(
                        i as int,
                    ).push(environment.live[i as int]));
                    i += 1;
                }
                assert(environment.live@.take(environment.live.len() as int)
                    =~= environment.live@);
            },
            None => {},
        }
        live
    }
}

} // verus!
