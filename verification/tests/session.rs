use neutrino::addr::{LinkAddr, LinkRequest};
use neutrino::session::{session_step, SessionAction, SessionEvent, SessionPhase};
use neutrino::socks5::ReplyType;

fn req() -> LinkRequest {
    LinkRequest { addr: LinkAddr::Domain(b"example.net".to_vec()), port: 80 }
}

#[test]
fn successful_session() {
    let mut p = SessionPhase::Start;
    assert_eq!(session_step(&mut p, SessionEvent::Begin), SessionAction::HandleConnection);
    assert_eq!(session_step(&mut p, SessionEvent::RequestResolved(Some(req()))), SessionAction::Connect(req()));
    assert_eq!(
        session_step(&mut p, SessionEvent::Connected(true)),
        SessionAction::SendReply(ReplyType::Succeeded)
    );
    assert_eq!(session_step(&mut p, SessionEvent::ReplySent), SessionAction::Relay);
    assert_eq!(p, SessionPhase::Relaying);
    assert_eq!(session_step(&mut p, SessionEvent::RelayEnded), SessionAction::Close);
    assert_eq!(p, SessionPhase::Closed);
}

#[test]
fn input_error_closes_without_reply() {
    let mut p = SessionPhase::Start;
    session_step(&mut p, SessionEvent::Begin);
    assert_eq!(session_step(&mut p, SessionEvent::RequestResolved(None)), SessionAction::Close);
    assert_eq!(session_step(&mut p, SessionEvent::Connected(true)), SessionAction::Close);
}

#[test]
fn connect_failure_replies_general_failure_then_closes() {
    let mut p = SessionPhase::Start;
    session_step(&mut p, SessionEvent::Begin);
    session_step(&mut p, SessionEvent::RequestResolved(Some(req())));
    assert_eq!(
        session_step(&mut p, SessionEvent::Connected(false)),
        SessionAction::SendReply(ReplyType::GeneralFailure)
    );
    assert_eq!(session_step(&mut p, SessionEvent::ReplySent), SessionAction::Close);
}

#[test]
fn unexpected_event_ends_session() {
    let mut p = SessionPhase::Start;
    assert_eq!(session_step(&mut p, SessionEvent::ReplySent), SessionAction::Close);
    assert_eq!(p, SessionPhase::Closed);
}
