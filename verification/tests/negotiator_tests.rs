use rustyproxy::negotiator::detect_control_upgrade;
use rustyproxy::response::{standard_response, switching_protocols_response};
use rustyproxy::scan::{bytes_eq, contains_bytes, range_contains_ci, upper_byte};

#[test]
fn control_upgrade_request_is_detected() {
    assert!(detect_control_upgrade(
        b"GET-CONTROL /x HTTP/1.1\r\nUpgrade: websocket\r\n\r\n"
    ));
}

#[test]
fn detection_is_case_insensitive() {
    assert!(detect_control_upgrade(b"get-control /x\r\nUPGRADE: WebSocket"));
}

#[test]
fn markers_in_different_fragments_do_not_match() {
    assert!(!detect_control_upgrade(b"GET-CONTROL /x\n\nUpgrade: websocket"));
}

#[test]
fn marker_in_second_fragment_matches() {
    assert!(detect_control_upgrade(
        b"GET / HTTP/1.1\n\nGET-CONTROL /y Upgrade: websocket"
    ));
}

#[test]
fn plain_request_is_not_control() {
    assert!(!detect_control_upgrade(b"GET / HTTP/1.1\r\nHost: x\r\n\r\n"));
}

#[test]
fn upgrade_without_control_marker_is_not_control() {
    assert!(!detect_control_upgrade(b"GET / HTTP/1.1\r\nUpgrade: websocket\r\n\r\n"));
}

#[test]
fn empty_payload_is_not_control() {
    assert!(!detect_control_upgrade(b""));
}

#[test]
fn switching_protocols_bytes_are_exact() {
    let r = switching_protocols_response();
    assert_eq!(
        r.as_slice(),
        b"HTTP/1.1 101 Switching Protocols\r\nConnection: Upgrade\r\nUpgrade: Websocket\r\n\r\n"
            .as_slice()
    );
}

#[test]
fn standard_response_wraps_status() {
    let r = standard_response(b"@RustyManager");
    assert_eq!(r.as_slice(), b"HTTP/1.1 200 @RustyManager\r\n\r\n".as_slice());
    let r = standard_response(b"");
    assert_eq!(r.as_slice(), b"HTTP/1.1 200 \r\n\r\n".as_slice());
}

#[test]
fn byte_scanning_primitives() {
    assert!(contains_bytes(b"xxSSHyy", b"SSH"));
    assert!(!contains_bytes(b"xxSsHyy", b"SSH"));
    assert!(contains_bytes(b"abc", b""));
    assert!(!contains_bytes(b"ab", b"abc"));
    assert!(bytes_eq(b"abc", b"abc"));
    assert!(!bytes_eq(b"abc", b"abd"));
    assert!(!bytes_eq(b"abc", b"ab"));
    assert_eq!(upper_byte(b'a'), b'A');
    assert_eq!(upper_byte(b'z'), b'Z');
    assert_eq!(upper_byte(b'A'), b'A');
    assert_eq!(upper_byte(b'0'), b'0');
    // search restricted to a range of the haystack
    assert!(range_contains_ci(b"xxUPGRADEyy", 2, 9, b"upgrade"));
    assert!(!range_contains_ci(b"xxUPGRADEyy", 3, 9, b"upgrade"));
}
