use parity_orchestrator::as_hex::HexError;
use parity_orchestrator::bootstrap::{
    BootCall, BootError, BootEvent, BootPhase, BootReport, BootRequest, BootStep, Bootstrap,
    PROBE_TIMEOUT_SECS, RETRY_DELAY_SECS,
};
use parity_orchestrator::enode::IdentityError;
use parity_orchestrator::rpc::Binary;
use parity_orchestrator::wire::{Announcement, Endpoint, IpAddress, NodeIdentity};

fn topic() -> Vec<u8> {
    vec![0xde, 0xad, 0xbe, 0xef]
}

fn enode() -> String {
    format!("enode://{}@127.0.0.1:30303", "ab".repeat(64))
}

fn own() -> Announcement {
    Announcement {
        identity: NodeIdentity { bytes: vec![0xab; 64] },
        endpoint: Endpoint { address: IpAddress::V4([10, 0, 0, 5]), port: 30303 },
    }
}

fn own_payload() -> Vec<u8> {
    let mut payload = vec![0xab; 64];
    payload.extend_from_slice(&[10, 0, 0, 5, 0x76, 0x5f]);
    payload
}

fn at_once(call: BootCall) -> BootRequest {
    BootRequest { delay_secs: 0, call }
}

/// Feeds the events in turn; returns the last state, the steps, and the
/// seconds paused in all.
fn run(events: Vec<BootEvent>) -> (Bootstrap, Vec<BootStep>, u64) {
    let mut bootstrap = Bootstrap::new(topic());
    let mut steps = Vec::new();
    let mut paused = 0;
    for event in events {
        let (b, step) = bootstrap.step(event);
        bootstrap = b;
        paused += step.request.delay_secs;
        steps.push(step);
    }
    (bootstrap, steps, paused)
}

fn happy_path() -> Vec<BootEvent> {
    vec![
        BootEvent::Identity(Some(enode())),
        BootEvent::Port(Some(30303)),
        BootEvent::Address(Some(IpAddress::V4([10, 0, 0, 5]))),
        BootEvent::Probed(true),
        BootEvent::Subscribed(Some(Binary(vec![7]))),
        BootEvent::Published(Some(true)),
    ]
}

#[test]
fn delays() {
    assert_eq!(RETRY_DELAY_SECS, 1);
    assert_eq!(PROBE_TIMEOUT_SECS, 10);
}

#[test]
fn starts_by_asking_for_the_identity() {
    let bootstrap = Bootstrap::new(topic());
    assert_eq!(bootstrap.phase, BootPhase::AcquiringIdentity);
    assert_eq!(bootstrap.outstanding(), BootCall::GetIdentity);
}

#[test]
fn calls_in_order() {
    let (bootstrap, steps, paused) = run(happy_path());
    let calls: Vec<BootRequest> = steps.into_iter().map(|s| {
        assert_eq!(s.report, BootReport::Advanced);
        s.request
    }).collect();
    assert_eq!(
        calls,
        vec![
            at_once(BootCall::GetPort),
            at_once(BootCall::DiscoverAddress),
            at_once(BootCall::Probe(own().endpoint, 10)),
            at_once(BootCall::Subscribe(topic())),
            at_once(BootCall::Publish { topic: topic(), payload: own_payload() }),
            at_once(BootCall::Nothing),
        ]
    );
    assert_eq!(paused, 0);
    assert_eq!(bootstrap.phase, BootPhase::Ready(own(), Binary(vec![7])));
}

#[test]
fn control_api_unavailable_three_times() {
    let mut events = vec![
        BootEvent::Identity(None),
        BootEvent::Identity(None),
        BootEvent::Identity(None),
    ];
    events.extend(happy_path());
    let (bootstrap, steps, paused) = run(events);
    assert_eq!(paused, 3);
    for step in &steps[..3] {
        assert_eq!(
            *step,
            BootStep {
                report: BootReport::Retrying,
                request: BootRequest { delay_secs: 1, call: BootCall::GetIdentity },
            }
        );
    }
    assert!(steps.iter().all(|s| !matches!(s.report, BootReport::Fatal(_))));
    assert_eq!(bootstrap.phase, BootPhase::Ready(own(), Binary(vec![7])));
}

#[test]
fn port_is_asked_again_after_a_pause() {
    let (bootstrap, steps, paused) =
        run(vec![BootEvent::Identity(Some(enode())), BootEvent::Port(None), BootEvent::Port(None)]);
    assert_eq!(paused, 2);
    assert_eq!(
        steps[2],
        BootStep {
            report: BootReport::Retrying,
            request: BootRequest { delay_secs: 1, call: BootCall::GetPort },
        }
    );
    assert_eq!(bootstrap.phase, BootPhase::AcquiringPort(own().identity));
}

#[test]
fn unreachable_endpoint_is_probed_again_after_a_pause() {
    let mut events = happy_path();
    events.truncate(3);
    events.extend(vec![
        BootEvent::Probed(false),
        BootEvent::Probed(false),
        BootEvent::Probed(true),
    ]);
    let (bootstrap, steps, paused) = run(events);
    assert_eq!(paused, 2);
    assert_eq!(
        steps[3],
        BootStep {
            report: BootReport::Retrying,
            request: BootRequest { delay_secs: 1, call: BootCall::Probe(own().endpoint, 10) },
        }
    );
    assert_eq!(steps[5].request, at_once(BootCall::Subscribe(topic())));
    assert_eq!(bootstrap.phase, BootPhase::Subscribing(own()));
}

#[test]
fn address_discovery_failure_is_fatal() {
    let (bootstrap, steps, paused) = run(vec![
        BootEvent::Identity(Some(enode())),
        BootEvent::Port(Some(30303)),
        BootEvent::Address(None),
    ]);
    assert_eq!(paused, 0);
    assert_eq!(
        steps[2],
        BootStep {
            report: BootReport::Fatal(BootError::AddressDiscovery),
            request: at_once(BootCall::Nothing),
        }
    );
    assert_eq!(bootstrap.phase, BootPhase::Failed(BootError::AddressDiscovery));
}

#[test]
fn subscription_failure_is_fatal() {
    let mut events = happy_path();
    events.truncate(4);
    events.push(BootEvent::Subscribed(None));
    let (bootstrap, steps, _) = run(events);
    assert_eq!(steps[4].report, BootReport::Fatal(BootError::Subscription));
    assert_eq!(bootstrap.phase, BootPhase::Failed(BootError::Subscription));
}

#[test]
fn unreadable_identity_is_fatal() {
    let (bootstrap, steps, _) =
        run(vec![BootEvent::Identity(Some("enode://1.2.3.4:5".to_string()))]);
    let error = BootError::Identity(IdentityError::MissingNodeId);
    assert_eq!(
        steps[0],
        BootStep { report: BootReport::Fatal(error), request: at_once(BootCall::Nothing) }
    );
    assert_eq!(bootstrap.phase, BootPhase::Failed(error));

    let (bootstrap, _, _) =
        run(vec![BootEvent::Identity(Some("enode://abc@1.2.3.4:5".to_string()))]);
    assert_eq!(
        bootstrap.phase,
        BootPhase::Failed(BootError::Identity(IdentityError::InvalidNodeId(HexError::OddLength)))
    );
}

#[test]
fn first_announcement_failure_is_not_fatal() {
    for (answer, report) in [
        (Some(false), BootReport::AnnouncementRefused),
        (None, BootReport::AnnouncementFailed),
    ] {
        let mut events = happy_path();
        events.truncate(5);
        events.push(BootEvent::Published(answer));
        let (bootstrap, steps, _) = run(events);
        assert_eq!(steps[5], BootStep { report, request: at_once(BootCall::Nothing) });
        assert_eq!(bootstrap.phase, BootPhase::Ready(own(), Binary(vec![7])));
    }
}

#[test]
fn unexpected_event_repeats_the_outstanding_call() {
    let (bootstrap, steps, paused) =
        run(vec![
            BootEvent::Port(Some(1)),
            BootEvent::Identity(Some(enode())),
            BootEvent::Probed(true),
        ]);
    assert_eq!(paused, 0);
    assert_eq!(
        steps[0],
        BootStep { report: BootReport::Unexpected, request: at_once(BootCall::GetIdentity) }
    );
    assert_eq!(
        steps[2],
        BootStep { report: BootReport::Unexpected, request: at_once(BootCall::GetPort) }
    );
    assert_eq!(bootstrap.phase, BootPhase::AcquiringPort(own().identity));
}

#[test]
fn nothing_follows_the_end() {
    let mut events = happy_path();
    events.push(BootEvent::Identity(None));
    let (bootstrap, steps, paused) = run(events);
    assert_eq!(
        steps[6],
        BootStep { report: BootReport::Unexpected, request: at_once(BootCall::Nothing) }
    );
    assert_eq!(paused, 0);
    assert_eq!(bootstrap.phase, BootPhase::Ready(own(), Binary(vec![7])));
}

#[test]
fn ipv6_address_is_announced_with_eighteen_bytes() {
    let octets = [0x20, 0x01, 0x0d, 0xb8, 0, 0, 0, 0, 0, 0, 0, 0, 0, 0, 0, 1];
    let (_, steps, _) = run(vec![
        BootEvent::Identity(Some(enode())),
        BootEvent::Port(Some(0x0102)),
        BootEvent::Address(Some(IpAddress::V6(octets))),
        BootEvent::Probed(true),
        BootEvent::Subscribed(Some(Binary(vec![]))),
    ]);
    let mut payload = vec![0xab; 64];
    payload.extend_from_slice(&octets);
    payload.extend_from_slice(&[1, 2]);
    assert_eq!(steps[4].request, at_once(BootCall::Publish { topic: topic(), payload }));
}
