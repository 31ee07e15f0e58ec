use wusp::auth::{check_credential, Verdict};
use wusp::client::{check_upgrade_status, ClientError, SWITCHING_PROTOCOLS};
use wusp::relay::{
    inbound_step, outbound_step, Direction, DirectionEnd, Fault, Frame, InboundAction,
    OutboundAction,
};
use wusp::server::{
    ConnAction, ConnEvent, Connection, Listener, ListenerAction, ListenerEvent, ListenerState,
    Phase, SessionEnd,
};
use wusp::session::{Outcome, Session, Teardown};

#[test]
fn first_end_tears_down_once() {
    let mut s = Session::new();
    assert!(!s.is_finished());
    let t = s.direction_ended(Direction::Outbound, DirectionEnd::EndOfStream);
    assert_eq!(t, Teardown::CloseBoth(Outcome::Completed));
    assert!(s.is_finished());
    let t2 = s.direction_ended(Direction::Inbound, DirectionEnd::Failed(Fault::ReceiveMessage));
    assert_eq!(t2, Teardown::Nothing);
    assert_eq!(s.outcome(), Some(Outcome::Completed));
}

#[test]
fn failure_is_tagged_with_direction() {
    let mut s = Session::new();
    let t = s.direction_ended(Direction::Inbound, DirectionEnd::Failed(Fault::WriteBytes));
    assert_eq!(t, Teardown::CloseBoth(Outcome::Failed(Direction::Inbound, Fault::WriteBytes)));
    assert!(!Outcome::Failed(Direction::Inbound, Fault::WriteBytes).is_success());
}

#[test]
fn vanished_peer_is_not_an_error() {
    let mut s = Session::new();
    let t = s.direction_ended(Direction::Inbound, DirectionEnd::PeerVanished);
    assert_eq!(t, Teardown::CloseBoth(Outcome::PeerVanished));
    assert!(Outcome::PeerVanished.is_success());
    assert!(Outcome::Completed.is_success());
}

#[test]
fn close_frame_completes_session() {
    let mut s = Session::new();
    let t = s.direction_ended(Direction::Inbound, DirectionEnd::CloseFrame);
    assert_eq!(t, Teardown::CloseBoth(Outcome::Completed));
}

#[test]
fn connection_runs_through_its_phases() {
    let mut c = Connection::new();
    assert_eq!(c.phase(), Phase::Handshaking);
    assert_eq!(c.handle(ConnEvent::Upgraded), ConnAction::Dial);
    assert_eq!(c.handle(ConnEvent::Dialed), ConnAction::StartRelay);
    assert_eq!(c.phase(), Phase::Relaying);
    let end = SessionEnd::Relayed(Outcome::Completed);
    assert_eq!(c.handle(ConnEvent::RelayEnded(Outcome::Completed)), ConnAction::Finish(end));
    assert_eq!(c.phase(), Phase::Closed(end));
    assert_eq!(c.handle(ConnEvent::Dialed), ConnAction::Ignore);
}

#[test]
fn failed_handshake_never_dials() {
    let mut c = Connection::new();
    assert_eq!(
        c.handle(ConnEvent::HandshakeFailed),
        ConnAction::Finish(SessionEnd::HandshakeFailed)
    );
    assert_eq!(c.handle(ConnEvent::Upgraded), ConnAction::Ignore);
}

#[test]
fn dial_failure_leaves_listener_serving() {
    let mut l = Listener::new();
    assert_eq!(l.handle(ListenerEvent::Accepted), ListenerAction::Spawn);
    let mut c = Connection::new();
    assert_eq!(c.handle(ConnEvent::Upgraded), ConnAction::Dial);
    assert_eq!(c.handle(ConnEvent::DialFailed), ConnAction::Finish(SessionEnd::DialFailed));
    assert_eq!(
        l.handle(ListenerEvent::SessionEnded(SessionEnd::DialFailed)),
        ListenerAction::Report(SessionEnd::DialFailed)
    );
    assert_eq!(l.state(), ListenerState::Listening);
    assert_eq!(l.handle(ListenerEvent::Accepted), ListenerAction::Spawn);
    let mut next = Connection::new();
    assert_eq!(next.handle(ConnEvent::Upgraded), ConnAction::Dial);
    assert_eq!(next.handle(ConnEvent::Dialed), ConnAction::StartRelay);
}

#[test]
fn accept_failure_stops_listener() {
    let mut l = Listener::new();
    assert_eq!(l.handle(ListenerEvent::AcceptFailed), ListenerAction::Shutdown);
    assert_eq!(l.state(), ListenerState::Stopped);
    assert_eq!(l.handle(ListenerEvent::Accepted), ListenerAction::Shutdown);
}

#[test]
fn upgrade_status_must_be_switching_protocols() {
    assert_eq!(check_upgrade_status(SWITCHING_PROTOCOLS), Ok(()));
    assert_eq!(check_upgrade_status(101), Ok(()));
    assert_eq!(check_upgrade_status(200), Err(ClientError::UnexpectedStatus(200)));
    assert_eq!(check_upgrade_status(401), Err(ClientError::UnexpectedStatus(401)));
}

#[test]
fn matching_credentials_echo_ping() {
    let verdict = check_credential(Some(b"abc".as_slice()), Some(b"abc".as_slice()));
    assert_eq!(verdict, Verdict::Accept);
    let mut conn = Connection::new();
    assert_eq!(conn.handle(ConnEvent::Upgraded), ConnAction::Dial);
    assert_eq!(conn.handle(ConnEvent::Dialed), ConnAction::StartRelay);

    // client input "ping" goes out as a binary frame
    let frame = match outbound_step(b"ping", 4) {
        OutboundAction::Forward(p) => Frame::Binary(p),
        OutboundAction::Stop => panic!("expected a frame"),
    };
    // the server writes it to the echo target
    let to_target = match inbound_step(Some(frame)) {
        InboundAction::Write(p) => p,
        _ => panic!("expected bytes"),
    };
    assert_eq!(to_target, b"ping".to_vec());
    // the echo comes back through the server and out on the client's output
    let back = match outbound_step(&to_target, to_target.len()) {
        OutboundAction::Forward(p) => Frame::Binary(p),
        OutboundAction::Stop => panic!("expected a frame"),
    };
    let output = match inbound_step(Some(back)) {
        InboundAction::Write(p) => p,
        _ => panic!("expected bytes"),
    };
    assert_eq!(output, b"ping".to_vec());
}

#[test]
fn mismatched_credentials_fail_before_target() {
    let verdict = check_credential(Some(b"xyz".as_slice()), Some(b"abc".as_slice()));
    assert_eq!(verdict, Verdict::Reject);
    assert_eq!(verdict.refusal_status(), Some(401));
    let mut conn = Connection::new();
    assert_eq!(conn.handle(ConnEvent::Rejected), ConnAction::Finish(SessionEnd::Unauthorized));
    assert_eq!(conn.handle(ConnEvent::Upgraded), ConnAction::Ignore);
    assert_eq!(conn.phase(), Phase::Closed(SessionEnd::Unauthorized));
    assert_eq!(check_upgrade_status(401), Err(ClientError::UnexpectedStatus(401)));
}
