use peer_stream::latency::Latency;

#[test]
fn ntp_time_combines_digits_fraction_and_roundtrip() {
    // last two digits 12 -> 12000 ms; half a second of fraction -> 499 ms; 3 ms round trip
    assert_eq!(Latency::ntp_time_millis(3_900_000_012, u32::MAX / 2, 3_000), 12_000 + 499 - 3);
}

#[test]
fn ntp_time_is_zero_when_last_digits_are_zero() {
    assert_eq!(Latency::ntp_time_millis(3_900_000_000, 12345, 999_999), 0);
}

#[test]
fn ntp_time_full_fraction_is_a_second() {
    assert_eq!(Latency::ntp_time_millis(99, u32::MAX, 0), 100_000);
}

#[test]
fn ntp_time_roundtrip_keeps_low_bits() {
    // (2^32 + 5) ms of round trip count as 5 ms
    let micros: u64 = ((1u64 << 32) + 5) * 1000;
    assert_eq!(Latency::ntp_time_millis(21, 0, micros), 21_000 - 5);
}

#[test]
fn ntp_time_definedness() {
    assert!(!Latency::ntp_time_is_defined(9, 0, 0));
    assert!(Latency::ntp_time_is_defined(10, 0, 0));
    assert!(Latency::ntp_time_is_defined(100, 0, u64::MAX));
    assert!(!Latency::ntp_time_is_defined(101, 0, 1_001_000));
    assert!(Latency::ntp_time_is_defined(101, 0, 1_000_999));
}

#[test]
fn time_message_roundtrip() {
    for t in [0u32, 5, 99_999, 100_000, u32::MAX] {
        let text = Latency::format_time(t);
        assert_eq!(text, t.to_string());
        assert_eq!(Latency::parse_time(text.as_bytes()), Some(t));
    }
}

#[test]
fn parse_time_rejects_bad_messages() {
    assert_eq!(Latency::parse_time(b"abc"), None);
    assert_eq!(Latency::parse_time(b""), None);
    assert_eq!(Latency::parse_time(b"-3"), None);
    assert_eq!(Latency::parse_time(&[0xc3, 0x28]), None);
}

#[test]
fn latency_difference() {
    assert_eq!(Latency::difference(1500, 1200), Some(300));
    assert_eq!(Latency::difference(1200, 1200), Some(0));
    assert_eq!(Latency::difference(1200, 1500), None);
}

#[test]
fn sntp_retries() {
    assert_eq!(Latency::sntp_retry_after_failure(0, 3), Some(1));
    assert_eq!(Latency::sntp_retry_after_failure(1, 3), Some(2));
    assert_eq!(Latency::sntp_retry_after_failure(2, 3), None);
}
