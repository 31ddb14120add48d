use rustyproxy::selector::{Backend, PeekOutcome};
use rustyproxy::session::{Action, Event, Mode, Session, SessionState};

fn new_session() -> Session {
    Session::new(b"@RustyManager".to_vec())
}

#[test]
fn silent_client_reaches_fallback_relay() {
    // the client connects and stays silent: the first read returns nothing,
    // the peek times out, and the session dials the fallback endpoint
    let mut s = new_session();
    assert!(matches!(s.step(Event::Start), Action::ReadFirstPayload));
    match s.step(Event::FirstPayload(Vec::new())) {
        Action::Send(bytes) => {
            assert_eq!(bytes.as_slice(), b"HTTP/1.1 200 @RustyManager\r\n\r\n".as_slice())
        }
        _ => panic!("expected a send action"),
    }
    assert!(matches!(s.step(Event::WriteDone), Action::Peek));
    assert!(matches!(
        s.step(Event::Peeked(PeekOutcome::TimedOut)),
        Action::Dial(Backend::Fallback)
    ));
    assert!(matches!(s.step(Event::DialDone), Action::StartRelay));
    assert_eq!(s.state, SessionState::Relaying);
}

#[test]
fn ssh_client_is_selected_without_control_upgrade() {
    let mut s = new_session();
    s.step(Event::Start);
    let payload = b"CONNECT-SSH-CLIENT-1.2\n".to_vec();
    assert!(matches!(s.step(Event::FirstPayload(payload.clone())), Action::Send(_)));
    assert_eq!(s.mode, Some(Mode::Standard));
    assert!(matches!(s.step(Event::WriteDone), Action::Peek));
    assert!(matches!(
        s.step(Event::Peeked(PeekOutcome::Data(payload))),
        Action::Dial(Backend::Fallback)
    ));
}

#[test]
fn control_request_upgrades_and_bypasses_selection() {
    let mut s = new_session();
    s.step(Event::Start);
    let payload = b"GET-CONTROL /x HTTP/1.1\r\nUpgrade: websocket\r\n\r\n".to_vec();
    match s.step(Event::FirstPayload(payload)) {
        Action::Send(bytes) => assert_eq!(
            bytes.as_slice(),
            b"HTTP/1.1 101 Switching Protocols\r\nConnection: Upgrade\r\nUpgrade: Websocket\r\n\r\n"
                .as_slice()
        ),
        _ => panic!("expected a send action"),
    }
    assert_eq!(s.mode, Some(Mode::ControlUpgrade));
    assert!(matches!(
        s.step(Event::WriteDone),
        Action::Dial(Backend::Control)
    ));
    assert!(matches!(s.step(Event::DialDone), Action::StartRelay));
}

#[test]
fn non_ssh_payload_dials_alternate() {
    let mut s = new_session();
    s.step(Event::Start);
    s.step(Event::FirstPayload(b"hello".to_vec()));
    s.step(Event::WriteDone);
    assert!(matches!(
        s.step(Event::Peeked(PeekOutcome::Data(b"hello".to_vec()))),
        Action::Dial(Backend::Alternate)
    ));
}

#[test]
fn dial_failure_closes_the_session() {
    let mut s = new_session();
    s.step(Event::Start);
    s.step(Event::FirstPayload(Vec::new()));
    s.step(Event::WriteDone);
    s.step(Event::Peeked(PeekOutcome::TimedOut));
    assert!(matches!(s.step(Event::DialFailed), Action::Close));
    assert_eq!(s.state, SessionState::Closed);
    assert_eq!(s.client_to_backend, 0);
    assert_eq!(s.backend_to_client, 0);
}

#[test]
fn relay_end_records_byte_counts() {
    let mut s = new_session();
    s.step(Event::Start);
    s.step(Event::FirstPayload(Vec::new()));
    s.step(Event::WriteDone);
    s.step(Event::Peeked(PeekOutcome::TimedOut));
    s.step(Event::DialDone);
    assert!(matches!(s.step(Event::RelayFinished(100, 250)), Action::Close));
    assert_eq!(s.state, SessionState::Closed);
    assert_eq!(s.client_to_backend, 100);
    assert_eq!(s.backend_to_client, 250);
}

#[test]
fn write_failure_closes_the_session() {
    let mut s = new_session();
    s.step(Event::Start);
    s.step(Event::FirstPayload(Vec::new()));
    assert!(matches!(s.step(Event::WriteFailed), Action::Close));
    assert_eq!(s.state, SessionState::Closed);
}

#[test]
fn first_read_failure_closes_the_session() {
    let mut s = new_session();
    s.step(Event::Start);
    assert!(matches!(s.step(Event::FirstReadFailed), Action::Close));
    assert_eq!(s.state, SessionState::Closed);
}

#[test]
fn failed_peek_still_dials_fallback() {
    let mut s = new_session();
    s.step(Event::Start);
    s.step(Event::FirstPayload(b"x".to_vec()));
    s.step(Event::WriteDone);
    assert!(matches!(
        s.step(Event::Peeked(PeekOutcome::Failed)),
        Action::Dial(Backend::Fallback)
    ));
}

#[test]
fn unexpected_event_closes_the_session() {
    let mut s = new_session();
    assert!(matches!(s.step(Event::WriteDone), Action::Close));
    assert_eq!(s.state, SessionState::Closed);
}
