use rustyproxy::config::{parse_port, parse_status, parse_u16};

fn args(words: &[&str]) -> Vec<Vec<u8>> {
    words.iter().map(|w| w.as_bytes().to_vec()).collect()
}

#[test]
fn parse_u16_accepts_plain_numbers() {
    assert_eq!(parse_u16(b"80"), Some(80));
    assert_eq!(parse_u16(b"0"), Some(0));
    assert_eq!(parse_u16(b"65535"), Some(65535));
    assert_eq!(parse_u16(b"08"), Some(8));
    assert_eq!(parse_u16(b"+443"), Some(443));
}

#[test]
fn parse_u16_rejects_bad_words() {
    assert_eq!(parse_u16(b""), None);
    assert_eq!(parse_u16(b"+"), None);
    assert_eq!(parse_u16(b"12a"), None);
    assert_eq!(parse_u16(b"-1"), None);
    assert_eq!(parse_u16(b"65536"), None);
    assert_eq!(parse_u16(b"99999999999999999999"), None);
}

#[test]
fn port_defaults_to_80() {
    assert_eq!(parse_port(&args(&["proxy"])), 80);
    assert_eq!(parse_port(&args(&[])), 80);
}

#[test]
fn port_flag_sets_port() {
    assert_eq!(parse_port(&args(&["proxy", "--port", "2222"])), 2222);
}

#[test]
fn bad_port_value_falls_back_to_default() {
    assert_eq!(parse_port(&args(&["proxy", "--port", "seventy"])), 80);
    assert_eq!(parse_port(&args(&["proxy", "--port", "70000"])), 80);
}

#[test]
fn last_port_flag_wins() {
    assert_eq!(
        parse_port(&args(&["proxy", "--port", "81", "--port", "82"])),
        82
    );
}

#[test]
fn port_flag_without_value_is_ignored() {
    assert_eq!(parse_port(&args(&["proxy", "--port"])), 80);
}

#[test]
fn doubled_port_flag_parses_the_following_word() {
    // the first flag sees the second as its value and falls back; the
    // second flag then reads the number
    assert_eq!(parse_port(&args(&["proxy", "--port", "--port", "99"])), 99);
}

#[test]
fn status_defaults() {
    assert_eq!(parse_status(&args(&["proxy"])), b"@RustyManager".to_vec());
}

#[test]
fn status_flag_sets_status() {
    assert_eq!(
        parse_status(&args(&["proxy", "--status", "hello"])),
        b"hello".to_vec()
    );
}

#[test]
fn last_status_flag_wins() {
    assert_eq!(
        parse_status(&args(&["proxy", "--status", "a", "--status", "b"])),
        b"b".to_vec()
    );
}

#[test]
fn status_flag_without_value_is_ignored() {
    assert_eq!(
        parse_status(&args(&["proxy", "--status"])),
        b"@RustyManager".to_vec()
    );
}
