use pingbar::result::{push_decimal, render_slot, PingResult};

#[test]
fn done_renders_like_ping() {
    let r = PingResult::Done {
        hostname: "example.com:443".to_string(),
        icmp_seq: 7,
        ttl: 64,
        round_trip_ms: 12,
    };
    assert_eq!(r.render(), "64 bytes from example.com:443: icmp_seq=7 ttl=64 time=12ms");
}

#[test]
fn done_renders_large_numbers() {
    let r = PingResult::Done {
        hostname: "h".to_string(),
        icmp_seq: u64::MAX,
        ttl: 0,
        round_trip_ms: 1000,
    };
    assert_eq!(r.render(), "64 bytes from h: icmp_seq=18446744073709551615 ttl=0 time=1000ms");
}

#[test]
fn error_renders_with_prefix() {
    let r = PingResult::Error("io error: timed out".to_string());
    assert_eq!(r.render(), "Error: io error: timed out");
}

#[test]
fn empty_and_unconfigured_slots_render_as_dashes() {
    assert_eq!(render_slot(&None), "---");
    assert_eq!(render_slot(&Some(PingResult::NotConfigured)), "---");
    assert_eq!(render_slot(&Some(PingResult::Error("x".to_string()))), "Error: x");
}

#[test]
fn decimal_digits() {
    let mut s = String::from("n=");
    push_decimal(&mut s, 0);
    assert_eq!(s, "n=0");
    let mut s = String::new();
    push_decimal(&mut s, 1234567890);
    assert_eq!(s, "1234567890");
    let mut s = String::new();
    push_decimal(&mut s, u128::MAX);
    assert_eq!(s, u128::MAX.to_string());
}
