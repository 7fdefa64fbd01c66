use wifi_bringup::failure::FailureReason;
use wifi_bringup::identity::TargetIdentity;
use wifi_bringup::lease::{IpLease, Ipv4Address};
use wifi_bringup::machine::State;
use wifi_bringup::orchestrator::{Action, BringUpResult, Event, Orchestrator};
use wifi_bringup::probe::ProbeSummary;
use wifi_bringup::scan::{AccessPointRecord, SecurityType};

fn home() -> TargetIdentity {
    TargetIdentity::new("home".to_string(), "correct horse".to_string()).unwrap()
}

fn station(ssid: &str, channel: u8) -> AccessPointRecord {
    AccessPointRecord {
        ssid: ssid.to_string(),
        signal_strength: -61,
        channel,
        security: SecurityType::Wpa2Personal,
    }
}

fn assigned() -> IpLease {
    IpLease {
        address: Ipv4Address(192, 168, 4, 2),
        subnet_prefix: 24,
        gateway: Ipv4Address(192, 168, 4, 1),
    }
}

#[test]
fn network_present_and_gateway_answering_is_ready() {
    let mut orchestrator = Orchestrator::new(home());

    assert!(matches!(orchestrator.step(Event::Start), Action::Scan));

    let seen = vec![station("neighbour", 1), station("home", 6)];
    match orchestrator.step(Event::ScanCompleted(seen)) {
        Action::Configure(config) => {
            assert_eq!(config.station().name(), "home");
            assert_eq!(config.channel(), Some(6));
            assert_eq!(config.access_point_channel(), 6);
        }
        _ => panic!("expected a configuration"),
    }

    assert!(matches!(orchestrator.step(Event::Configured), Action::Connect));
    assert!(matches!(orchestrator.step(Event::Connected), Action::AwaitLease));

    match orchestrator.step(Event::LeaseAcquired(assigned())) {
        Action::Probe(address) => assert_eq!(address, Ipv4Address(192, 168, 4, 1)),
        _ => panic!("expected a probe"),
    }

    let answered = ProbeSummary { transmitted: 4, received: 4 };
    assert!(matches!(orchestrator.step(Event::ProbesCompleted(answered)), Action::Finish));

    assert_eq!(orchestrator.state(), State::Ready(assigned()));
    match orchestrator.result() {
        Some(BringUpResult::Ready(handle)) => {
            assert_eq!(handle.gateway(), Ipv4Address(192, 168, 4, 1));
            assert_eq!(handle.address(), Ipv4Address(192, 168, 4, 2));
            assert_eq!(handle.subnet_prefix(), 24);
        }
        other => panic!("expected a handle, got {:?}", other),
    }
}

#[test]
fn network_absent_and_association_failing_is_a_connection_error() {
    let mut orchestrator = Orchestrator::new(home());
    let mut asked: Vec<Action> = Vec::new();

    asked.push(orchestrator.step(Event::Start));
    asked.push(orchestrator.step(Event::ScanCompleted(Vec::new())));
    match asked.last() {
        Some(Action::Configure(config)) => {
            assert_eq!(config.station().name(), "home");
            assert_eq!(config.channel(), None);
            assert_eq!(config.access_point_channel(), 1);
        }
        _ => panic!("expected a configuration"),
    }
    asked.push(orchestrator.step(Event::Configured));
    assert!(matches!(asked.last(), Some(Action::Connect)));
    asked.push(orchestrator.step(Event::ConnectionFailed));
    assert!(matches!(asked.last(), Some(Action::Finish)));

    assert!(matches!(
        orchestrator.result(),
        Some(BringUpResult::Failed(FailureReason::ConnectionError))
    ));
    assert!(!asked.iter().any(|action| matches!(action, Action::AwaitLease | Action::Probe(_))));
}

#[test]
fn lease_assigned_but_one_probe_lost_is_an_unreachable_gateway() {
    let mut orchestrator = Orchestrator::new(home());

    orchestrator.step(Event::Start);
    orchestrator.step(Event::ScanCompleted(vec![station("home", 6)]));
    orchestrator.step(Event::Configured);
    orchestrator.step(Event::Connected);
    assert!(matches!(orchestrator.step(Event::LeaseAcquired(assigned())), Action::Probe(_)));
    assert_eq!(orchestrator.state(), State::Verifying(assigned()));

    let lossy = ProbeSummary { transmitted: 4, received: 3 };
    assert!(matches!(orchestrator.step(Event::ProbesCompleted(lossy)), Action::Finish));

    assert_eq!(orchestrator.state(), State::Failed(FailureReason::UnreachableGateway));
    assert!(matches!(
        orchestrator.result(),
        Some(BringUpResult::Failed(FailureReason::UnreachableGateway))
    ));
}

#[test]
fn failed_scan_ends_bring_up_before_configuration() {
    let mut orchestrator = Orchestrator::new(home());
    orchestrator.step(Event::Start);
    assert!(matches!(orchestrator.step(Event::ScanFailed), Action::Finish));
    assert!(matches!(
        orchestrator.result(),
        Some(BringUpResult::Failed(FailureReason::ScanError))
    ));
    assert!(matches!(orchestrator.step(Event::Configured), Action::Finish));
}

#[test]
fn open_network_is_brought_up_like_any_other() {
    let open = TargetIdentity::new("lobby".to_string(), String::new()).unwrap();
    let mut orchestrator = Orchestrator::new(open);
    orchestrator.step(Event::Start);
    match orchestrator.step(Event::ScanCompleted(vec![station("lobby", 3)])) {
        Action::Configure(config) => {
            assert_eq!(config.station().secret(), "");
            assert_eq!(config.channel(), Some(3));
        }
        _ => panic!("expected a configuration"),
    }
    orchestrator.step(Event::Configured);
    orchestrator.step(Event::Connected);
    orchestrator.step(Event::LeaseAcquired(assigned()));
    orchestrator.step(Event::ProbesCompleted(ProbeSummary { transmitted: 5, received: 5 }));
    assert!(matches!(orchestrator.result(), Some(BringUpResult::Ready(_))));
}

#[test]
fn lease_timeout_starts_no_probe() {
    let mut orchestrator = Orchestrator::new(home());
    orchestrator.step(Event::Start);
    orchestrator.step(Event::ScanCompleted(vec![station("home", 6)]));
    orchestrator.step(Event::Configured);
    orchestrator.step(Event::Connected);
    assert!(matches!(orchestrator.step(Event::LeaseTimedOut), Action::Finish));
    let summary = ProbeSummary { transmitted: 4, received: 4 };
    assert!(matches!(orchestrator.step(Event::ProbesCompleted(summary)), Action::Finish));
    assert!(matches!(
        orchestrator.result(),
        Some(BringUpResult::Failed(FailureReason::LeaseTimeout))
    ));
}
