use webchannel::relay::{Session, SessionAction, SessionEnd, SessionEvent, SessionState};

fn subscribed() -> Session {
    let mut s = Session::new();
    assert!(matches!(s.step(SessionEvent::Authorized), SessionAction::Connect));
    assert!(matches!(s.step(SessionEvent::SubscriptionReady), SessionAction::Wait));
    assert_eq!(s.state, SessionState::Subscribed);
    s
}

#[test]
fn refused_session_never_connects() {
    let mut s = Session::new();
    assert!(matches!(s.step(SessionEvent::Refused), SessionAction::Reject));
    assert_eq!(s.state, SessionState::Closed);
    assert_eq!(s.end, Some(SessionEnd::Refused));
}

#[test]
fn payload_is_forwarded_byte_identical() {
    let mut s = subscribed();
    match s.step(SessionEvent::BusPayload(b"hello on foo".to_vec())) {
        SessionAction::Forward(p) => assert_eq!(p, b"hello on foo".to_vec()),
        _ => panic!("payload not forwarded"),
    }
    assert_eq!(s.state, SessionState::Subscribed);
}

#[test]
fn unexpected_bus_message_is_counted_and_skipped() {
    let mut s = subscribed();
    assert!(matches!(s.step(SessionEvent::BusOther), SessionAction::CountUnexpected));
    assert_eq!(s.state, SessionState::Subscribed);
}

#[test]
fn any_client_activity_ends_the_session() {
    for ev in [SessionEvent::ClientFrame, SessionEvent::ClientError, SessionEvent::ClientGone] {
        let mut s = subscribed();
        assert!(matches!(s.step(ev), SessionAction::CloseSocket));
        assert_eq!(s.state, SessionState::Draining);
        assert!(matches!(s.step(SessionEvent::SocketClosed), SessionAction::Finish));
        assert_eq!(s.state, SessionState::Closed);
        assert!(s.succeeded());
    }
}

#[test]
fn send_failure_drains_and_reports() {
    let mut s = subscribed();
    assert!(matches!(s.step(SessionEvent::ForwardFailed), SessionAction::CloseSocket));
    assert!(matches!(s.step(SessionEvent::ClientFrame), SessionAction::Wait));
    assert!(matches!(s.step(SessionEvent::SocketClosed), SessionAction::Finish));
    assert_eq!(s.end, Some(SessionEnd::SendFailed));
    assert!(!s.succeeded());
}

#[test]
fn connect_failure_closes_socket() {
    let mut s = Session::new();
    s.step(SessionEvent::Authorized);
    assert!(matches!(s.step(SessionEvent::ConnectFailed), SessionAction::CloseSocket));
    assert!(matches!(s.step(SessionEvent::SocketClosed), SessionAction::Finish));
    assert_eq!(s.end, Some(SessionEnd::ConnectFailed));
}

#[test]
fn closed_session_ignores_everything() {
    let mut s = subscribed();
    s.step(SessionEvent::BusFailed);
    s.step(SessionEvent::SocketClosed);
    assert!(matches!(s.step(SessionEvent::BusPayload(vec![1])), SessionAction::Wait));
    assert!(matches!(s.step(SessionEvent::SocketClosed), SessionAction::Wait));
    assert_eq!(s.state, SessionState::Closed);
    assert_eq!(s.end, Some(SessionEnd::BusFailed));
}
