use doco::container::{ContainerRequest, Role};
use doco::endpoint::Endpoint;
use doco::network::{Host, IpAddress};
use doco::report::{Completion, Failure, TeardownWarning};
use doco::server::Server;
use doco::service::Service;
use doco::test_runner::{Action, Event, Pending, Phase, TestRunner};
use doco::wait::{LogSource, WaitFor};
use doco::Doco;

fn topology(services: &[&str]) -> Doco {
    let server = Server::builder()
        .image("app")
        .tag("v1")
        .port(3000)
        .env("RUST_LOG", "info")
        .wait(WaitFor::message_on_stdout("listening"))
        .build()
        .unwrap();
    let mut builder = Doco::builder().server(server);
    for image in services {
        builder = builder.service(
            Service::builder()
                .image(image)
                .tag("14")
                .env("POSTGRES_PASSWORD", "pw")
                .wait(WaitFor::message_on_stdout("ready to accept connections"))
                .build()
                .unwrap(),
        );
    }
    builder.build().unwrap()
}

fn accept(next: (TestRunner, Option<Action>)) -> (TestRunner, Action) {
    let (runner, action) = next;
    (runner, action.unwrap())
}

fn ready(doco: Doco) -> TestRunner {
    let (runner, action) = TestRunner::init(doco);
    assert!(matches!(action, Action::Start { role: Role::Driver, .. }));
    let (runner, action) = accept(runner.step(Event::Started));
    assert!(matches!(action, Action::ResolvePublicEndpoint { role: Role::Driver, port: 4444 }));
    let (runner, action) = accept(runner.step(Event::PublicEndpoint(Endpoint::new("localhost", 49153))));
    assert!(matches!(action, Action::Ready));
    runner
}

fn address(last: u32) -> IpAddress {
    IpAddress::V4(0xAC11_0000 + last)
}

/// Answers every action as a container runtime and a browser would where nothing goes wrong,
/// but for the body of the test, which ends as `completion` says. Returns the runner, the
/// actions that were asked for, and the last action.
fn play(runner: TestRunner, name: &str, completion: Completion) -> (TestRunner, Vec<String>, Action) {
    let mut completion = Some(completion);
    let mut log = Vec::new();
    let (mut runner, mut action) = accept(runner.run(name));
    loop {
        let event = match &action {
            Action::Start { role, .. } => {
                log.push(format!("start {:?}", role));
                Event::Started
            }
            Action::ResolveInternalAddress { role: Role::Service(position) } => {
                log.push(format!("address {}", position));
                Event::InternalAddress(address(2 + *position as u32))
            }
            Action::ResolvePublicEndpoint { role, port } => {
                log.push(format!("endpoint {:?} {}", role, port));
                Event::PublicEndpoint(Endpoint::new("localhost", 32768))
            }
            Action::Probe { url, delay_millis } => {
                log.push(format!("probe {} {}", url, delay_millis));
                Event::Probed(true)
            }
            Action::Connect { url } => {
                log.push(format!("connect {}", url));
                Event::Connected
            }
            Action::Execute { name, base_url } => {
                log.push(format!("execute {} {}", name, base_url));
                Event::Executed(completion.take().unwrap())
            }
            Action::Disconnect => {
                log.push(String::from("disconnect"));
                Event::Disconnected(true)
            }
            Action::Stop { role } => {
                log.push(format!("stop {:?}", role));
                Event::Stopped(true)
            }
            _ => return (runner, log, action),
        };
        let next = accept(runner.step(event));
        runner = next.0;
        action = next.1;
    }
}

fn count(log: &[String], prefix: &str) -> usize {
    log.iter().filter(|line| line.starts_with(prefix)).count()
}

#[test]
fn init_asks_for_the_driver() {
    let (runner, action) = TestRunner::init(topology(&[]));

    assert_eq!(runner.phase(), Phase::Uninitialized);
    assert_eq!(runner.pending(), Pending::Start(Role::Driver));
    assert!(runner.driver().is_none());
    assert_eq!(runner.report().len(), 0);
    match action {
        Action::Start { role, request } => {
            assert_eq!(role, Role::Driver);
            assert_eq!(request.image(), "selenium/standalone-firefox");
            assert_eq!(request.tag(), "latest");
            assert_eq!(request.port(), Some(4444));
            assert!(request.envs().is_empty());
            assert_eq!(request.hosts().get("host.docker.internal"), Some(Host::HostGateway));
            assert_eq!(request.hosts().entries().len(), 1);
            assert!(matches!(request.wait(), Some(WaitFor::Log { source: LogSource::StdOut, message }) if message == "Started Selenium Standalone"));
        }
        other => panic!("unexpected action {:?}", other),
    }
}

#[test]
fn init_reaches_driver_ready() {
    let runner = ready(topology(&[]));

    assert_eq!(runner.phase(), Phase::DriverReady);
    assert_eq!(runner.pending(), Pending::Nothing);
    assert!(runner.is_idle());
    let driver = runner.driver().as_ref().unwrap();
    assert_eq!(driver.host(), "localhost");
    assert_eq!(driver.port(), 49153);
    assert_eq!(runner.doco().server().image(), "app");
}

#[test]
fn init_failure_stops_the_driver_and_is_fatal() {
    let (runner, _) = TestRunner::init(topology(&[]));
    let (runner, action) = accept(runner.step(Event::StartFailed(String::from("no such image"))));
    assert!(matches!(action, Action::Stop { role: Role::Driver }));
    assert_eq!(runner.phase(), Phase::Shutdown);

    let (runner, action) = accept(runner.step(Event::Stopped(true)));
    assert!(matches!(action, Action::Failed(Failure::Provision(message)) if message == "no such image"));
    assert_eq!(runner.phase(), Phase::Shutdown);
    assert_eq!(runner.pending(), Pending::Nothing);

    let (runner, action) = runner.run("never");
    assert!(action.is_none());
    assert_eq!(runner.phase(), Phase::Shutdown);
}

#[test]
fn init_failure_to_locate_the_driver_is_fatal() {
    let (runner, _) = TestRunner::init(topology(&[]));
    let (runner, _) = accept(runner.step(Event::Started));
    let (runner, action) = accept(runner.step(Event::Unresolved(String::from("no port"))));
    assert!(matches!(action, Action::Stop { role: Role::Driver }));
    let (runner, action) = accept(runner.step(Event::Stopped(false)));
    assert!(matches!(action, Action::Failed(Failure::Provision(message)) if message == "no port"));
    assert!(!runner.is_idle());
}

#[test]
fn run_is_refused_before_the_driver_is_ready() {
    let (runner, _) = TestRunner::init(topology(&[]));
    let (runner, action) = runner.run("too_early");

    assert!(action.is_none());
    assert_eq!(runner.phase(), Phase::Uninitialized);
    assert_eq!(runner.pending(), Pending::Start(Role::Driver));
}

#[test]
fn run_is_refused_while_a_test_runs() {
    let runner = ready(topology(&[]));
    let (runner, _) = accept(runner.run("first"));
    let (runner, action) = runner.run("second");

    assert!(action.is_none());
    assert_eq!(runner.phase(), Phase::Provisioning);
    assert_eq!(runner.live(), vec![Role::Server]);
}

#[test]
fn events_that_answer_nothing_are_passed_over() {
    let runner = ready(topology(&["postgres"]));
    let (runner, action) = runner.step(Event::Started);
    assert!(action.is_none());
    assert_eq!(runner.phase(), Phase::DriverReady);

    let (runner, _) = accept(runner.run("test"));
    let (runner, action) = runner.step(Event::Probed(true));
    assert!(action.is_none());
    let (runner, action) = runner.step(Event::Stopped(true));
    assert!(action.is_none());
    let (runner, action) = runner.step(Event::InternalAddress(address(2)));
    assert!(action.is_none());
    assert_eq!(runner.phase(), Phase::Provisioning);
    assert_eq!(runner.pending(), Pending::Start(Role::Service(0)));
    assert_eq!(runner.live(), vec![Role::Service(0)]);
}

#[test]
fn checks_home_page_scenario() {
    let server = Server::builder()
        .image("app")
        .tag("v1")
        .port(3000)
        .wait(WaitFor::message_on_stdout("listening"))
        .build()
        .unwrap();
    let postgres = Service::builder()
        .image("postgres")
        .tag("14")
        .env("POSTGRES_PASSWORD", "pw")
        .wait(WaitFor::message_on_stdout("ready to accept connections"))
        .build()
        .unwrap();
    let doco = Doco::builder().server(server).service(postgres).build().unwrap();
    let runner = ready(doco);

    // the service first
    let (runner, action) = accept(runner.run("checks_home_page"));
    assert_eq!(runner.phase(), Phase::Provisioning);
    match action {
        Action::Start { role, request } => {
            assert_eq!(role, Role::Service(0));
            assert_eq!(request.image(), "postgres");
            assert_eq!(request.tag(), "14");
            assert_eq!(request.port(), None);
            assert_eq!(request.envs().len(), 1);
            assert_eq!(request.envs()[0].name(), "POSTGRES_PASSWORD");
            assert_eq!(request.envs()[0].value(), "pw");
            assert_eq!(request.hosts().get("doco"), Some(Host::HostGateway));
            assert_eq!(request.hosts().get("host.docker.internal"), Some(Host::HostGateway));
            assert!(matches!(request.wait(), Some(WaitFor::Log { source: LogSource::StdOut, message }) if message == "ready to accept connections"));
        }
        other => panic!("unexpected action {:?}", other),
    }
    let (runner, action) = accept(runner.step(Event::Started));
    assert!(matches!(action, Action::ResolveInternalAddress { role: Role::Service(0) }));

    // then the server, which finds the service under its image name
    let bridge = IpAddress::V4(0xAC11_0003);
    let (runner, action) = accept(runner.step(Event::InternalAddress(bridge)));
    match action {
        Action::Start { role, request } => {
            assert_eq!(role, Role::Server);
            assert_eq!(request.image(), "app");
            assert_eq!(request.tag(), "v1");
            assert_eq!(request.port(), Some(3000));
            assert!(request.envs().is_empty());
            assert_eq!(request.hosts().get("postgres"), Some(Host::Addr(bridge)));
            assert_eq!(request.hosts().get("host.docker.internal"), Some(Host::HostGateway));
            assert_eq!(request.hosts().entries().len(), 2);
            assert!(matches!(request.wait(), Some(WaitFor::Log { source: LogSource::StdOut, message }) if message == "listening"));
        }
        other => panic!("unexpected action {:?}", other),
    }
    assert_eq!(runner.live(), vec![Role::Service(0), Role::Server]);
    let (runner, action) = accept(runner.step(Event::Started));
    assert!(matches!(action, Action::ResolvePublicEndpoint { role: Role::Server, port: 3000 }));

    // the server is asked whether it answers, at once
    let (runner, action) = accept(runner.step(Event::PublicEndpoint(Endpoint::new("localhost", 32768))));
    assert_eq!(runner.phase(), Phase::Ready);
    assert!(matches!(&action, Action::Probe { url, delay_millis: 0 } if url == "http://localhost:32768/"));

    // a session with the browser
    let (runner, action) = accept(runner.step(Event::Probed(true)));
    assert!(matches!(&action, Action::Connect { url } if url == "http://localhost:49153"));

    // the body of the test
    let (runner, action) = accept(runner.step(Event::Connected));
    assert_eq!(runner.phase(), Phase::Executing);
    assert!(matches!(&action, Action::Execute { name, base_url }
        if name == "checks_home_page" && base_url == "http://host.docker.internal:32768"));

    // everything is taken down: the session, the server, the service
    let (runner, action) = accept(runner.step(Event::Executed(Completion::Passed)));
    assert_eq!(runner.phase(), Phase::TearingDown);
    assert!(matches!(action, Action::Disconnect));
    let (runner, action) = accept(runner.step(Event::Disconnected(true)));
    assert!(matches!(action, Action::Stop { role: Role::Server }));
    let (runner, action) = accept(runner.step(Event::Stopped(true)));
    assert!(matches!(action, Action::Stop { role: Role::Service(0) }));
    assert_eq!(runner.live(), vec![Role::Service(0)]);
    let (runner, action) = accept(runner.step(Event::Stopped(true)));

    // one pass
    match action {
        Action::Done(result) => {
            assert_eq!(result.name(), "checks_home_page");
            assert!(result.passed());
            assert!(result.failure().is_none());
            assert!(result.warnings().is_empty());
        }
        other => panic!("unexpected action {:?}", other),
    }
    assert_eq!(runner.phase(), Phase::Idle);
    assert!(runner.live().is_empty());
    assert_eq!(runner.report().len(), 1);
    assert_eq!(runner.report().passed(), 1);
    assert_eq!(runner.report().failed(), 0);
    assert_eq!(runner.report().summary(), "1 passed; 0 failed");
    assert_eq!(runner.report().exit_code(), 0);
}

#[test]
fn steps_of_a_test_come_in_order() {
    let runner = ready(topology(&["postgres", "redis"]));
    let (_, log, _) = play(runner, "ordered", Completion::Passed);

    assert_eq!(
        log,
        vec![
            "start Service(0)",
            "address 0",
            "start Service(1)",
            "address 1",
            "start Server",
            "endpoint Server 3000",
            "probe http://localhost:32768/ 0",
            "connect http://localhost:49153",
            "execute ordered http://host.docker.internal:32768",
            "disconnect",
            "stop Server",
            "stop Service(1)",
            "stop Service(0)",
        ]
    );
}

#[test]
fn server_gets_an_alias_for_each_service() {
    let runner = ready(topology(&["postgres", "redis"]));
    let (runner, _) = accept(runner.run("aliases"));
    let (runner, _) = accept(runner.step(Event::Started));
    let (runner, _) = accept(runner.step(Event::InternalAddress(address(2))));
    let (runner, _) = accept(runner.step(Event::Started));
    let (_, action) = accept(runner.step(Event::InternalAddress(address(3))));

    match action {
        Action::Start { role: Role::Server, request } => {
            assert_eq!(request.hosts().get("postgres"), Some(Host::Addr(address(2))));
            assert_eq!(request.hosts().get("redis"), Some(Host::Addr(address(3))));
            assert_eq!(request.hosts().get("host.docker.internal"), Some(Host::HostGateway));
            assert_eq!(request.hosts().get("mysql"), None);
            assert_eq!(request.hosts().entries().len(), 3);
            assert_eq!(request.envs().len(), 1);
            assert_eq!(request.envs()[0].name(), "RUST_LOG");
        }
        other => panic!("unexpected action {:?}", other),
    }
}

#[test]
fn later_service_of_the_same_name_wins_the_alias() {
    let runner = ready(topology(&["postgres", "redis", "postgres"]));
    let (runner, _) = accept(runner.run("duplicates"));
    let (runner, _) = accept(runner.step(Event::Started));
    let (runner, _) = accept(runner.step(Event::InternalAddress(address(2))));
    let (runner, _) = accept(runner.step(Event::Started));
    let (runner, _) = accept(runner.step(Event::InternalAddress(address(3))));
    let (runner, _) = accept(runner.step(Event::Started));
    let (_, action) = accept(runner.step(Event::InternalAddress(address(4))));

    match action {
        Action::Start { role: Role::Server, request } => {
            assert_eq!(request.hosts().get("postgres"), Some(Host::Addr(address(4))));
            assert_eq!(request.hosts().get("redis"), Some(Host::Addr(address(3))));
            assert_eq!(request.hosts().entries().len(), 3);
        }
        other => panic!("unexpected action {:?}", other),
    }
}

#[test]
fn server_request_from_services_and_addresses() {
    let doco = topology(&["postgres", "redis", "postgres"]);
    let addresses = vec![address(2), address(3), address(4)];
    let request = ContainerRequest::server(doco.server(), doco.services(), &addresses);

    assert_eq!(request.hosts().get("postgres"), Some(Host::Addr(address(4))));
    assert_eq!(request.hosts().get("redis"), Some(Host::Addr(address(3))));
    assert_eq!(request.hosts().get("host.docker.internal"), Some(Host::HostGateway));

    // services without an address get no alias
    let request = ContainerRequest::server(doco.server(), doco.services(), &addresses[..1].to_vec());
    assert_eq!(request.hosts().get("postgres"), Some(Host::Addr(address(2))));
    assert_eq!(request.hosts().get("redis"), None);
}

#[test]
fn test_without_services_starts_the_server_at_once() {
    let runner = ready(topology(&[]));
    let (runner, log, action) = play(runner, "alone", Completion::Passed);

    assert!(matches!(action, Action::Done(result) if result.passed()));
    assert_eq!(count(&log, "start"), 1);
    assert_eq!(count(&log, "stop"), 1);
    assert_eq!(log[0], "start Server");
    assert_eq!(runner.phase(), Phase::Idle);
}

#[test]
fn failing_body_is_torn_down_and_reported() {
    let runner = ready(topology(&["postgres", "redis"]));
    let (runner, log, action) = play(runner, "fails", Completion::Failed(String::from("assertion failed")));

    assert_eq!(count(&log, "start"), 3);
    assert_eq!(count(&log, "stop"), 3);
    assert_eq!(count(&log, "disconnect"), 1);
    match action {
        Action::Done(result) => {
            assert!(!result.passed());
            assert!(matches!(result.failure(), Some(Failure::Execution(message)) if message == "assertion failed"));
            assert_eq!(result.failure().as_ref().unwrap().message(), "assertion failed");
        }
        other => panic!("unexpected action {:?}", other),
    }
    assert!(runner.live().is_empty());
    assert!(runner.is_idle());
    assert_eq!(runner.report().exit_code(), 1);
}

#[test]
fn crashed_worker_is_torn_down_and_reported() {
    let runner = ready(topology(&["postgres"]));
    let (runner, log, action) = play(runner, "panics", Completion::Crashed);

    assert_eq!(count(&log, "start"), 2);
    assert_eq!(count(&log, "stop"), 2);
    assert!(matches!(action, Action::Done(result)
        if matches!(result.failure(), Some(Failure::Execution(message)) if message == "failed to run test in isolated thread")));
    assert!(runner.live().is_empty());
    assert_eq!(runner.report().failed(), 1);
}

#[test]
fn suite_goes_on_after_a_failure() {
    let runner = ready(topology(&["postgres"]));
    let (runner, first, _) = play(runner, "one", Completion::Passed);
    let (runner, second, _) = play(runner, "two", Completion::Failed(String::from("boom")));
    let (runner, third, _) = play(runner, "three", Completion::Passed);

    assert_eq!(count(&first, "execute"), 1);
    assert_eq!(count(&second, "execute"), 1);
    assert_eq!(count(&third, "execute"), 1);
    let report = runner.report();
    assert_eq!(report.len(), 3);
    assert_eq!(report.passed(), 2);
    assert_eq!(report.failed(), 1);
    assert!(!report.success());
    assert_eq!(report.exit_code(), 1);
    assert_eq!(report.summary(), "2 passed; 1 failed");
    let names: Vec<&str> = report.results().iter().map(|result| result.name().as_str()).collect();
    assert_eq!(names, vec!["one", "two", "three"]);
    assert!(report.results()[0].passed());
    assert!(!report.results()[1].passed());
    assert!(report.results()[2].passed());
}

#[test]
fn second_test_sees_nothing_of_the_first() {
    let fresh = ready(topology(&["postgres", "redis"]));
    let (_, expected, _) = play(fresh, "second", Completion::Passed);

    let runner = ready(topology(&["postgres", "redis"]));
    let (runner, _, _) = play(runner, "first", Completion::Failed(String::from("left a mess")));
    assert!(runner.live().is_empty());
    let (runner, begun) = accept(runner.run("second"));
    assert_eq!(runner.live(), vec![Role::Service(0)]);
    match begun {
        Action::Start { role: Role::Service(0), request } => {
            assert_eq!(request.hosts().entries().len(), 2);
        }
        other => panic!("unexpected action {:?}", other),
    }

    let again = ready(topology(&["postgres", "redis"]));
    let (again, _, _) = play(again, "first", Completion::Failed(String::from("left a mess")));
    let (again, actual, action) = play(again, "second", Completion::Passed);
    assert_eq!(actual, expected);
    assert!(matches!(action, Action::Done(result) if result.passed() && result.warnings().is_empty()));
    assert_eq!(again.report().len(), 2);
}

#[test]
fn service_that_does_not_start_fails_the_test_only() {
    let runner = ready(topology(&["postgres", "redis"]));
    let (runner, _) = accept(runner.run("broken"));
    let (runner, _) = accept(runner.step(Event::Started));
    let (runner, action) = accept(runner.step(Event::InternalAddress(address(2))));
    assert!(matches!(action, Action::Start { role: Role::Service(1), .. }));

    let (runner, action) = accept(runner.step(Event::StartFailed(String::from("readiness timed out"))));
    assert_eq!(runner.phase(), Phase::TearingDown);
    assert!(matches!(action, Action::Stop { role: Role::Service(1) }));
    let (runner, action) = accept(runner.step(Event::Stopped(true)));
    assert!(matches!(action, Action::Stop { role: Role::Service(0) }));
    let (runner, action) = accept(runner.step(Event::Stopped(true)));
    assert!(matches!(action, Action::Done(result)
        if matches!(result.failure(), Some(Failure::Provision(message)) if message == "readiness timed out")));
    assert!(runner.is_idle());

    let (runner, _, action) = play(runner, "next", Completion::Passed);
    assert!(matches!(action, Action::Done(result) if result.passed()));
    assert_eq!(runner.report().summary(), "1 passed; 1 failed");
}

#[test]
fn server_that_does_not_start_fails_the_test() {
    let runner = ready(topology(&["postgres"]));
    let (runner, _) = accept(runner.run("broken"));
    let (runner, _) = accept(runner.step(Event::Started));
    let (runner, _) = accept(runner.step(Event::InternalAddress(address(2))));
    let (runner, action) = accept(runner.step(Event::StartFailed(String::from("pull failed"))));
    assert!(matches!(action, Action::Stop { role: Role::Server }));
    let (runner, action) = accept(runner.step(Event::Stopped(true)));
    assert!(matches!(action, Action::Stop { role: Role::Service(0) }));
    let (_, action) = accept(runner.step(Event::Stopped(true)));
    assert!(matches!(action, Action::Done(result)
        if matches!(result.failure(), Some(Failure::Provision(message)) if message == "pull failed")));
}

#[test]
fn container_that_cannot_be_located_fails_the_test() {
    let runner = ready(topology(&["postgres"]));
    let (runner, _) = accept(runner.run("lost_service"));
    let (runner, _) = accept(runner.step(Event::Started));
    let (runner, action) = accept(runner.step(Event::Unresolved(String::from("no bridge"))));
    assert!(matches!(action, Action::Stop { role: Role::Service(0) }));
    let (runner, action) = accept(runner.step(Event::Stopped(true)));
    assert!(matches!(action, Action::Done(result)
        if matches!(result.failure(), Some(Failure::Provision(message)) if message == "no bridge")));

    let (runner, _) = accept(runner.run("lost_server"));
    let (runner, _) = accept(runner.step(Event::Started));
    let (runner, _) = accept(runner.step(Event::InternalAddress(address(2))));
    let (runner, _) = accept(runner.step(Event::Started));
    let (runner, action) = accept(runner.step(Event::Unresolved(String::from("no port"))));
    assert!(matches!(action, Action::Stop { role: Role::Server }));
    let (runner, _) = accept(runner.step(Event::Stopped(true)));
    let (runner, action) = accept(runner.step(Event::Stopped(true)));
    assert!(matches!(action, Action::Done(result)
        if matches!(result.failure(), Some(Failure::Provision(message)) if message == "no port")));
    assert_eq!(runner.report().failed(), 2);
}

#[test]
fn probe_is_repeated_ten_times_at_most() {
    let runner = ready(topology(&[]));
    let (runner, _) = accept(runner.run("slow"));
    let (runner, _) = accept(runner.step(Event::Started));
    let (mut runner, mut action) = accept(runner.step(Event::PublicEndpoint(Endpoint::new("127.0.0.1", 8080))));
    assert!(matches!(&action, Action::Probe { url, delay_millis: 0 } if url == "http://127.0.0.1:8080/"));

    let mut probes = 1;
    loop {
        let next = accept(runner.step(Event::Probed(false)));
        runner = next.0;
        action = next.1;
        match &action {
            Action::Probe { url, delay_millis } => {
                assert_eq!(url, "http://127.0.0.1:8080/");
                assert_eq!(*delay_millis, 1000);
                probes += 1;
            }
            _ => break,
        }
    }

    assert_eq!(probes, 10);
    assert!(matches!(&action, Action::Connect { url } if url == "http://localhost:49153"));
    assert_eq!(runner.phase(), Phase::Ready);
    let (_, action) = accept(runner.step(Event::Connected));
    assert!(matches!(&action, Action::Execute { base_url, .. } if base_url == "http://host.docker.internal:8080"));
}

#[test]
fn probe_goes_on_at_the_first_answer() {
    let runner = ready(topology(&[]));
    let (runner, _) = accept(runner.run("quick"));
    let (runner, _) = accept(runner.step(Event::Started));
    let (runner, _) = accept(runner.step(Event::PublicEndpoint(Endpoint::new("localhost", 1))));
    let (runner, action) = accept(runner.step(Event::Probed(false)));
    assert!(matches!(action, Action::Probe { delay_millis: 1000, .. }));
    let (runner, action) = accept(runner.step(Event::Probed(false)));
    assert!(matches!(action, Action::Probe { delay_millis: 1000, .. }));
    let (_, action) = accept(runner.step(Event::Probed(true)));
    assert!(matches!(action, Action::Connect { .. }));
}

#[test]
fn refused_session_fails_the_test_only() {
    let runner = ready(topology(&["postgres"]));
    let (runner, _) = accept(runner.run("no_browser"));
    let (runner, _) = accept(runner.step(Event::Started));
    let (runner, _) = accept(runner.step(Event::InternalAddress(address(2))));
    let (runner, _) = accept(runner.step(Event::Started));
    let (runner, _) = accept(runner.step(Event::PublicEndpoint(Endpoint::new("localhost", 32768))));
    let (runner, _) = accept(runner.step(Event::Probed(true)));
    let (runner, action) = accept(runner.step(Event::ConnectFailed(String::from("connection refused"))));

    // no session was opened, so none is closed
    assert!(matches!(action, Action::Stop { role: Role::Server }));
    let (runner, action) = accept(runner.step(Event::Stopped(true)));
    assert!(matches!(action, Action::Stop { role: Role::Service(0) }));
    let (runner, action) = accept(runner.step(Event::Stopped(true)));
    assert!(matches!(action, Action::Done(result)
        if matches!(result.failure(), Some(Failure::Connection(message)) if message == "connection refused")));

    let (_, _, action) = play(runner, "next", Completion::Passed);
    assert!(matches!(action, Action::Done(result) if result.passed()));
}

#[test]
fn failed_stops_are_noted_and_change_nothing_else() {
    let runner = ready(topology(&["postgres"]));
    let (runner, _) = accept(runner.run("sticky"));
    let (runner, _) = accept(runner.step(Event::Started));
    let (runner, _) = accept(runner.step(Event::InternalAddress(address(2))));
    let (runner, _) = accept(runner.step(Event::Started));
    let (runner, _) = accept(runner.step(Event::PublicEndpoint(Endpoint::new("localhost", 32768))));
    let (runner, _) = accept(runner.step(Event::Probed(true)));
    let (runner, _) = accept(runner.step(Event::Connected));
    let (runner, action) = accept(runner.step(Event::Executed(Completion::Passed)));
    assert!(matches!(action, Action::Disconnect));
    let (runner, action) = accept(runner.step(Event::Disconnected(false)));
    assert!(matches!(action, Action::Stop { role: Role::Server }));
    let (runner, action) = accept(runner.step(Event::Stopped(false)));
    assert!(matches!(action, Action::Stop { role: Role::Service(0) }));
    let (runner, action) = accept(runner.step(Event::Stopped(false)));

    match action {
        Action::Done(result) => {
            assert!(result.passed());
            assert_eq!(
                result.warnings(),
                &vec![
                    TeardownWarning::Disconnect,
                    TeardownWarning::Stop(Role::Server),
                    TeardownWarning::Stop(Role::Service(0)),
                ]
            );
        }
        other => panic!("unexpected action {:?}", other),
    }
    assert!(runner.is_idle());
    assert!(runner.live().is_empty());
    assert_eq!(runner.report().exit_code(), 0);
}

#[test]
fn shutdown_stops_the_driver() {
    let runner = ready(topology(&[]));
    let (runner, _, _) = play(runner, "only", Completion::Passed);
    let (runner, action) = accept(runner.shutdown());
    assert!(matches!(action, Action::Stop { role: Role::Driver }));
    assert_eq!(runner.phase(), Phase::Shutdown);
    assert_eq!(runner.pending(), Pending::Stop(Role::Driver));

    let (runner, action) = runner.run("late");
    assert!(action.is_none());
    let (runner, action) = accept(runner.step(Event::Stopped(true)));
    assert!(matches!(action, Action::Closed));
    assert_eq!(runner.pending(), Pending::Nothing);
    assert_eq!(runner.report().len(), 1);

    let (runner, action) = runner.shutdown();
    assert!(action.is_none());
    let (_, action) = runner.step(Event::Stopped(true));
    assert!(action.is_none());
}

#[test]
fn shutdown_is_refused_while_a_test_runs() {
    let runner = ready(topology(&[]));
    let (runner, _) = accept(runner.run("busy"));
    let (runner, action) = runner.shutdown();

    assert!(action.is_none());
    assert_eq!(runner.phase(), Phase::Provisioning);
}
