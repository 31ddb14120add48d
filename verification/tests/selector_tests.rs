use rustyproxy::selector::{select_backend, select_from_peek, Backend, PeekOutcome};

#[test]
fn ssh_banner_selects_fallback() {
    assert_eq!(select_backend(b"SSH-2.0-OpenSSH_8.9"), Backend::Fallback);
}

#[test]
fn ssh_substring_selects_fallback() {
    assert_eq!(select_backend(b"CONNECT-SSH-CLIENT-1.2\n"), Backend::Fallback);
}

#[test]
fn empty_peek_selects_fallback() {
    assert_eq!(select_backend(b""), Backend::Fallback);
}

#[test]
fn other_payload_selects_alternate() {
    assert_eq!(select_backend(b"GET / HTTP/1.1\r\n\r\n"), Backend::Alternate);
}

#[test]
fn ssh_detection_is_case_sensitive() {
    assert_eq!(select_backend(b"ssh-2.0"), Backend::Alternate);
}

#[test]
fn timed_out_peek_selects_fallback() {
    assert_eq!(select_from_peek(&PeekOutcome::TimedOut), Backend::Fallback);
}

#[test]
fn failed_peek_selects_fallback() {
    assert_eq!(select_from_peek(&PeekOutcome::Failed), Backend::Fallback);
}

#[test]
fn peeked_data_selects_by_content() {
    assert_eq!(
        select_from_peek(&PeekOutcome::Data(b"OpenVPN".to_vec())),
        Backend::Alternate
    );
    assert_eq!(
        select_from_peek(&PeekOutcome::Data(b"SSH-2.0".to_vec())),
        Backend::Fallback
    );
    assert_eq!(
        select_from_peek(&PeekOutcome::Data(Vec::new())),
        Backend::Fallback
    );
}

#[test]
fn endpoint_addresses() {
    assert_eq!(Backend::Fallback.host(), "127.0.0.1");
    assert_eq!(Backend::Fallback.port(), 22);
    assert_eq!(Backend::Alternate.host(), "127.0.0.1");
    assert_eq!(Backend::Alternate.port(), 1194);
    assert_eq!(Backend::Control.host(), "0.0.0.0");
    assert_eq!(Backend::Control.port(), 1194);
}
