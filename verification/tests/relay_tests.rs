use rustyproxy::relay::RelayDirection;

#[test]
fn scripted_exchange_reports_totals() {
    // client sends 100 bytes in two reads, backend answers 250, then the
    // client side closes
    let mut c2b = RelayDirection::new();
    let mut b2c = RelayDirection::new();
    assert!(c2b.on_read(60));
    assert!(b2c.on_read(250));
    assert!(c2b.on_read(40));
    assert!(!c2b.on_read(0));
    assert!(!b2c.on_read(0));
    assert!(c2b.finished);
    assert!(b2c.finished);
    assert_eq!(c2b.total, 100);
    assert_eq!(b2c.total, 250);
}

#[test]
fn eof_finishes_a_direction() {
    let mut d = RelayDirection::new();
    assert!(d.on_read(10));
    assert!(!d.finished);
    assert!(!d.on_read(0));
    assert!(d.finished);
    assert_eq!(d.total, 10);
}

#[test]
fn finished_direction_ignores_later_reads() {
    let mut d = RelayDirection::new();
    assert!(!d.on_read(0));
    assert!(!d.on_read(5));
    assert!(d.finished);
    assert_eq!(d.total, 0);
}

#[test]
fn counter_saturates_instead_of_wrapping() {
    let mut d = RelayDirection {
        total: u64::MAX - 5,
        finished: false,
    };
    assert!(d.on_read(100));
    assert_eq!(d.total, u64::MAX);
    assert!(!d.finished);
}
