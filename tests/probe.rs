use rdpscan::endpoint::{Endpoint, ScanOutcome};
use rdpscan::frame::{ErrorKind, RESPONSE_CAPACITY};
use rdpscan::probe::{judge, Phase, Probe, ProbeAction, ProbeEvent};
use rdpscan::report::Reporter;

fn target() -> Endpoint {
    Endpoint::new(0x0a00_0001, 3389)
}

fn alive_reply() -> Vec<u8> {
    vec![
        0x03, 0x00, 0x00, 0x13, 0x0e, 0xd0, 0x00, 0x00, 0x12, 0x34, 0x00, 0x02, 0x00, 0x08,
        0x00, 0x00, 0x00, 0x00, 0x00,
    ]
}

/// Runs a probe against scripted answers and returns its outcome.
fn run(events: Vec<ProbeEvent>) -> ScanOutcome {
    let mut p = Probe::new(target());
    for ev in events {
        assert!(p.accepts(&ev));
        if let ProbeAction::Report(o) = p.step(ev) {
            assert!(p.is_finished());
            return o;
        }
    }
    panic!("the probe did not report");
}

#[test]
fn probe_walks_connect_send_receive() {
    let mut p = Probe::new(target());
    assert_eq!(p.phase, Phase::Connecting);
    assert_eq!(p.step(ProbeEvent::Connected), ProbeAction::Send);
    assert_eq!(p.step(ProbeEvent::Sent), ProbeAction::Receive(RESPONSE_CAPACITY));
    assert_eq!(RESPONSE_CAPACITY, 64);
    let a = p.step(ProbeEvent::Received(alive_reply()));
    assert_eq!(a, ProbeAction::Report(ScanOutcome::Alive(target())));
    assert!(p.is_finished());
    assert!(!p.accepts(&ProbeEvent::Sent));
}

#[test]
fn probe_rejects_events_out_of_phase() {
    let p = Probe::new(target());
    assert!(!p.accepts(&ProbeEvent::Sent));
    assert!(!p.accepts(&ProbeEvent::Received(vec![])));
    assert!(p.accepts(&ProbeEvent::ConnectTimedOut));
    assert!(!p.accepts(&ProbeEvent::ConnectionReset));
}

#[test]
fn alive_listener_is_reported_and_printed() {
    let o = run(vec![ProbeEvent::Connected, ProbeEvent::Sent, ProbeEvent::Received(alive_reply())]);
    assert_eq!(o, ScanOutcome::Alive(target()));
    let mut r = Reporter::new(1);
    assert_eq!(r.receive(o.report_item()), Some(target()));
    assert_eq!(r.finish(), 1);
}

#[test]
fn silent_listener_is_a_read_timeout() {
    let o = run(vec![ProbeEvent::Connected, ProbeEvent::Sent, ProbeEvent::ReceiveTimedOut]);
    assert_eq!(o, ScanOutcome::NotAlive(ErrorKind::ReadTimeout, target()));
    let mut r = Reporter::new(1);
    assert_eq!(r.receive(o.report_item()), None);
    assert_eq!(r.progress(), 1);
}

#[test]
fn reset_connection_is_a_connect_failure() {
    // The listener accepts, then resets: the reset shows up on the read.
    let o = run(vec![ProbeEvent::Connected, ProbeEvent::Sent, ProbeEvent::ConnectionReset]);
    assert_eq!(o, ScanOutcome::NotAlive(ErrorKind::ConnectFailure, target()));
    assert_eq!(o.error(), Some(ErrorKind::ConnectFailure));
    let mut r = Reporter::new(1);
    assert_eq!(r.receive(o.report_item()), None);
    assert_eq!(r.progress(), 1);
}

#[test]
fn refused_connection_is_a_connect_failure() {
    let o = run(vec![ProbeEvent::ConnectFailed]);
    assert_eq!(o, ScanOutcome::NotAlive(ErrorKind::ConnectFailure, target()));
}

#[test]
fn connect_timeout_is_a_connect_failure() {
    let o = run(vec![ProbeEvent::ConnectTimedOut]);
    assert_eq!(o, ScanOutcome::NotAlive(ErrorKind::ConnectFailure, target()));
}

#[test]
fn failed_write_is_an_io_failure() {
    let o = run(vec![ProbeEvent::Connected, ProbeEvent::SendFailed]);
    assert_eq!(o, ScanOutcome::NotAlive(ErrorKind::IoFailure, target()));
}

#[test]
fn failed_read_is_a_connect_failure() {
    let o = run(vec![ProbeEvent::Connected, ProbeEvent::Sent, ProbeEvent::ReceiveFailed]);
    assert_eq!(o, ScanOutcome::NotAlive(ErrorKind::ConnectFailure, target()));
}

#[test]
fn reset_during_write_is_a_connect_failure() {
    let o = run(vec![ProbeEvent::Connected, ProbeEvent::ConnectionReset]);
    assert_eq!(o, ScanOutcome::NotAlive(ErrorKind::ConnectFailure, target()));
}

#[test]
fn empty_read_is_a_short_response() {
    let o = run(vec![ProbeEvent::Connected, ProbeEvent::Sent, ProbeEvent::Received(vec![])]);
    assert_eq!(o, ScanOutcome::NotAlive(ErrorKind::ShortResponse, target()));
}

#[test]
fn negotiation_failure_reply_is_reported() {
    let mut b = alive_reply();
    b[11] = 0x03;
    b[15] = 0x06;
    assert_eq!(judge(target(), &b), ScanOutcome::NotAlive(ErrorKind::NegotiationFailure, target()));
    b[15] = 0x05;
    assert_eq!(judge(target(), &b), ScanOutcome::Alive(target()));
}

#[test]
fn wrong_protocol_reply_is_reported() {
    let mut b = alive_reply();
    b[5] = 0x00;
    let o = judge(target(), &b);
    assert_eq!(o, ScanOutcome::NotAlive(ErrorKind::WrongProtocol, target()));
    assert!(!o.is_alive());
    assert_eq!(o.endpoint(), target());
}

#[test]
fn endpoint_keeps_address_and_port() {
    let e = Endpoint::new(0xc0a8_0102, 65535);
    assert_eq!(e.addr(), 0xc0a8_0102);
    assert_eq!(e.port(), 65535);
}
