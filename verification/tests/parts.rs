use doco::client::Client;
use doco::container::{ContainerRequest, Role, DRIVER_IMAGE, DRIVER_PORT, DRIVER_READY, DRIVER_TAG};
use doco::endpoint::{decimal_text, Endpoint};
use doco::network::{Host, Hosts, IpAddress, DOCKER_HOST, SERVER_HOST};
use doco::report::{Completion, Failure, Report, TeardownWarning, TestResult, CRASHED};
use doco::service::Service;
use doco::test_case::{Registry, TestCase};
use doco::test_runner::{PROBE_ATTEMPTS, PROBE_INTERVAL_MILLIS};
use doco::wait::WaitFor;

#[test]
fn fixed_names_and_numbers() {
    assert_eq!(DOCKER_HOST, "host.docker.internal");
    assert_eq!(SERVER_HOST, "doco");
    assert_eq!(DRIVER_IMAGE, "selenium/standalone-firefox");
    assert_eq!(DRIVER_TAG, "latest");
    assert_eq!(DRIVER_PORT, 4444);
    assert_eq!(DRIVER_READY, "Started Selenium Standalone");
    assert_eq!(PROBE_ATTEMPTS, 10);
    assert_eq!(PROBE_INTERVAL_MILLIS, 1000);
    assert_eq!(CRASHED, "failed to run test in isolated thread");
}

#[test]
fn decimal_text_of_numbers() {
    assert_eq!(decimal_text(0), "0");
    assert_eq!(decimal_text(7), "7");
    assert_eq!(decimal_text(10), "10");
    assert_eq!(decimal_text(4444), "4444");
    assert_eq!(decimal_text(65535), "65535");
    assert_eq!(decimal_text(1234567890), "1234567890");
    assert_eq!(decimal_text(u64::MAX), "18446744073709551615");
}

#[test]
fn endpoint_url_has_host_and_port() {
    let endpoint = Endpoint::new("localhost", 8080);
    assert_eq!(endpoint.host(), "localhost");
    assert_eq!(endpoint.port(), 8080);
    assert_eq!(endpoint.url(), "http://localhost:8080");
    assert_eq!(endpoint.clone().url(), "http://localhost:8080");
    assert_eq!(Endpoint::new("host.docker.internal", 1).url(), "http://host.docker.internal:1");
    assert_eq!(Endpoint::new("127.0.0.1", 65535).url(), "http://127.0.0.1:65535");
    assert_eq!(Endpoint::new("", 0).url(), "http://:0");
}

#[test]
fn hosts_start_empty() {
    let hosts = Hosts::new();
    assert!(hosts.entries().is_empty());
    assert_eq!(hosts.get("postgres"), None);
}

#[test]
fn hosts_hold_what_was_inserted() {
    let first = IpAddress::V4(0xAC11_0002);
    let second = IpAddress::V6(1);
    let hosts = Hosts::new()
        .insert("postgres", Host::Addr(first))
        .insert("redis", Host::Addr(second))
        .insert("gateway", Host::HostGateway);

    assert_eq!(hosts.get("postgres"), Some(Host::Addr(first)));
    assert_eq!(hosts.get("redis"), Some(Host::Addr(second)));
    assert_eq!(hosts.get("gateway"), Some(Host::HostGateway));
    assert_eq!(hosts.get("mysql"), None);
    assert_eq!(hosts.get(""), None);
    let entries = hosts.entries();
    assert_eq!(entries.len(), 3);
    assert_eq!(entries[0].name(), "postgres");
    assert_eq!(entries[0].host(), Host::Addr(first));
    assert_eq!(entries[2].name(), "gateway");
}

#[test]
fn hosts_later_registration_replaces_the_earlier() {
    let old = IpAddress::V4(1);
    let new = IpAddress::V4(2);
    let hosts = Hosts::new()
        .insert("postgres", Host::Addr(old))
        .insert("redis", Host::HostGateway)
        .insert("postgres", Host::Addr(new));

    assert_eq!(hosts.get("postgres"), Some(Host::Addr(new)));
    assert_eq!(hosts.get("redis"), Some(Host::HostGateway));
    assert_eq!(hosts.entries().len(), 2);
    let copy = hosts.clone();
    assert_eq!(copy.get("postgres"), Some(Host::Addr(new)));
    assert_eq!(copy.entries().len(), 2);
}

#[test]
fn driver_request_is_fixed() {
    let request = ContainerRequest::driver();
    assert_eq!(request.image(), "selenium/standalone-firefox");
    assert_eq!(request.tag(), "latest");
    assert_eq!(request.port(), Some(4444));
    assert!(request.envs().is_empty());
    assert_eq!(request.hosts().get("host.docker.internal"), Some(Host::HostGateway));
    assert_eq!(request.hosts().get("doco"), None);
}

#[test]
fn service_request_follows_the_service() {
    let service = Service::builder()
        .image("postgres")
        .tag("latest")
        .env("POSTGRES_PASSWORD", "password")
        .env("POSTGRES_USER", "postgres")
        .env("POSTGRES_PASSWORD", "postgres")
        .build()
        .unwrap();
    let request = ContainerRequest::service(&service);

    assert_eq!(request.image(), "postgres");
    assert_eq!(request.tag(), "latest");
    assert_eq!(request.port(), None);
    assert!(request.wait().is_none());
    let envs: Vec<(&str, &str)> = request
        .envs()
        .iter()
        .map(|variable| (variable.name().as_str(), variable.value().as_str()))
        .collect();
    assert_eq!(
        envs,
        vec![
            ("POSTGRES_PASSWORD", "password"),
            ("POSTGRES_USER", "postgres"),
            ("POSTGRES_PASSWORD", "postgres"),
        ]
    );
    assert_eq!(request.hosts().get("doco"), Some(Host::HostGateway));
    assert_eq!(request.hosts().get("host.docker.internal"), Some(Host::HostGateway));
    assert_eq!(request.hosts().entries().len(), 2);
}

#[test]
fn service_request_keeps_the_condition() {
    let service = Service::builder()
        .image("redis")
        .tag("7")
        .wait(WaitFor::millis(250))
        .build()
        .unwrap();
    let request = ContainerRequest::service(&service);

    assert!(matches!(request.wait(), Some(WaitFor::Duration { millis: 250 })));
}

#[test]
fn completion_becomes_a_failure() {
    assert!(Completion::Passed.failure().is_none());
    assert!(matches!(Completion::Failed(String::from("no")).failure(), Some(Failure::Execution(message)) if message == "no"));
    assert!(matches!(Completion::Crashed.failure(), Some(Failure::Execution(message)) if message == CRASHED));
}

#[test]
fn failure_has_a_message() {
    assert_eq!(Failure::Provision(String::from("a")).message(), "a");
    assert_eq!(Failure::Connection(String::from("b")).message(), "b");
    assert_eq!(Failure::Execution(String::from("c")).message(), "c");
    assert!(matches!(Failure::Connection(String::from("b")).clone(), Failure::Connection(message) if message == "b"));
}

#[test]
fn empty_report_is_a_success() {
    let report = Report::new();
    assert_eq!(report.len(), 0);
    assert_eq!(report.passed(), 0);
    assert_eq!(report.failed(), 0);
    assert!(report.success());
    assert_eq!(report.exit_code(), 0);
    assert_eq!(report.summary(), "0 passed; 0 failed");
}

#[test]
fn report_counts_passes_and_failures() {
    let mut report = Report::new();
    for index in 0..12 {
        let failure = if index % 4 == 1 {
            Some(Failure::Execution(String::from("failed")))
        } else {
            None
        };
        report = report.record(TestResult::new(format!("test_{}", index), failure, Vec::new()));
    }

    assert_eq!(report.len(), 12);
    assert_eq!(report.passed(), 9);
    assert_eq!(report.failed(), 3);
    assert_eq!(report.passed() + report.failed(), report.len());
    assert!(!report.success());
    assert_eq!(report.exit_code(), 1);
    assert_eq!(report.summary(), "9 passed; 3 failed");
    assert_eq!(report.results()[11].name(), "test_11");
}

#[test]
fn test_result_holds_what_it_was_given() {
    let result = TestResult::new(
        String::from("visit_root_path"),
        Some(Failure::Provision(String::from("timeout"))),
        vec![TeardownWarning::Stop(Role::Server)],
    );
    let copy = result.clone();

    assert_eq!(copy.name(), "visit_root_path");
    assert!(!copy.passed());
    assert!(matches!(copy.failure(), Some(Failure::Provision(message)) if message == "timeout"));
    assert_eq!(copy.warnings(), &vec![TeardownWarning::Stop(Role::Server)]);
}

#[test]
fn client_targets_paths_on_the_server() {
    let client = Client::new("http://host.docker.internal:8080");

    assert_eq!(client.base_url(), "http://host.docker.internal:8080");
    assert_eq!(client.goto("/").unwrap(), "http://host.docker.internal:8080/");
    assert_eq!(client.goto("/users/1").unwrap(), "http://host.docker.internal:8080/users/1");
    assert_eq!(client.goto("about?lang=en#top").unwrap(), "http://host.docker.internal:8080/about?lang=en#top");
    assert_eq!(client.goto("").unwrap(), "http://host.docker.internal:8080/");
    assert_eq!(client.clone().goto("/").unwrap(), "http://host.docker.internal:8080/");
}

#[test]
fn client_resolves_paths_against_the_base() {
    let client = Client::new("https://example.net/a/b.html");
    assert_eq!(client.goto("c.png").unwrap(), "https://example.net/a/c.png");
    assert_eq!(client.goto("/v1/meta").unwrap(), "https://example.net/v1/meta");
    assert_eq!(client.goto("http://eve.com/b").unwrap(), "http://eve.com/b");
}

#[test]
fn client_without_a_proper_base_leads_nowhere() {
    let client = Client::new("not a url");
    let error = client.goto("/").unwrap_err();
    assert_eq!(*error.cause(), url::ParseError::RelativeUrlWithoutBase);

    let client = Client::new("http://localhost:8080");
    let error = client.goto("http://[::1").unwrap_err();
    assert_eq!(*error.cause(), url::ParseError::InvalidIpv6Address);
}

#[test]
fn test_case_holds_name_and_function() {
    fn body(input: u8) -> u8 {
        input + 1
    }
    let case = TestCase::new("adds_one", body as fn(u8) -> u8);

    assert_eq!(case.name(), "adds_one");
    assert_eq!((case.function())(1), 2);
}

#[test]
fn registry_keeps_the_order_of_registration() {
    let mut registry: Registry<u32> = Registry::new();
    assert_eq!(registry.len(), 0);
    assert!(registry.get(0).is_none());
    assert!(!registry.is_sealed());

    assert!(registry.register(TestCase::new("first", 1)));
    assert!(registry.register(TestCase::new("second", 2)));
    assert!(registry.register(TestCase::new("first", 3)));

    assert_eq!(registry.len(), 3);
    assert_eq!(registry.get(0).unwrap().name(), "first");
    assert_eq!(*registry.get(0).unwrap().function(), 1);
    assert_eq!(registry.get(1).unwrap().name(), "second");
    assert_eq!(*registry.get(2).unwrap().function(), 3);
    assert!(registry.get(3).is_none());
}

#[test]
fn sealed_registry_takes_no_more_tests() {
    let mut registry: Registry<u32> = Registry::new();
    assert!(registry.register(TestCase::new("first", 1)));
    registry.seal();

    assert!(registry.is_sealed());
    assert!(!registry.register(TestCase::new("late", 2)));
    assert_eq!(registry.len(), 1);
    assert_eq!(registry.get(0).unwrap().name(), "first");
    registry.seal();
    assert!(registry.is_sealed());
}
