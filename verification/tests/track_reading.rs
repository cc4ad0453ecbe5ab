use peer_stream::track_reader::{ReadTrackCounters, ReadTrackVerdict, RtpReadEvent};

#[test]
fn counters_start_at_zero() {
    let c = ReadTrackCounters::new();
    assert_eq!((c.errors, c.packets), (0, 0));
}

#[test]
fn decode_failure_counts_error_only() {
    let mut c = ReadTrackCounters::new();
    assert_eq!(c.record(RtpReadEvent::DecodeFailed), ReadTrackVerdict::KeepReading);
    assert_eq!((c.errors, c.packets), (1, 0));
}

#[test]
fn read_failure_counts_error_and_packet() {
    let mut c = ReadTrackCounters::new();
    assert_eq!(c.record(RtpReadEvent::ReadFailed), ReadTrackVerdict::KeepReading);
    assert_eq!((c.errors, c.packets), (1, 1));
    assert_eq!(c.record(RtpReadEvent::Decoded), ReadTrackVerdict::KeepReading);
    assert_eq!((c.errors, c.packets), (1, 2));
    assert_eq!(c.record(RtpReadEvent::Notified), ReadTrackVerdict::KeepReading);
    assert_eq!((c.errors, c.packets), (1, 2));
}

#[test]
fn gives_up_at_hundred_packets_with_error_majority() {
    let mut c = ReadTrackCounters { errors: 50, packets: 99 };
    assert_eq!(c.record(RtpReadEvent::ReadFailed), ReadTrackVerdict::TooManyErrors);
}

#[test]
fn keeps_reading_at_hundred_packets_with_half_errors() {
    let mut c = ReadTrackCounters { errors: 50, packets: 99 };
    assert_eq!(c.record(RtpReadEvent::Decoded), ReadTrackVerdict::KeepReading);
    assert_eq!((c.errors, c.packets), (50, 100));
}

#[test]
fn resets_at_hundred_errors() {
    let mut c = ReadTrackCounters { errors: 99, packets: 150 };
    assert_eq!(c.record(RtpReadEvent::ReadFailed), ReadTrackVerdict::KeepReading);
    assert_eq!((c.errors, c.packets), (0, 0));
}

#[test]
fn decode_failure_skips_reset_check() {
    let mut c = ReadTrackCounters { errors: 99, packets: 150 };
    assert_eq!(c.record(RtpReadEvent::DecodeFailed), ReadTrackVerdict::KeepReading);
    assert_eq!((c.errors, c.packets), (100, 150));
}

#[test]
fn clean_track_never_gives_up() {
    let mut c = ReadTrackCounters::new();
    for _ in 0..1000 {
        assert_eq!(c.record(RtpReadEvent::Decoded), ReadTrackVerdict::KeepReading);
        assert_eq!(c.errors, 0);
    }
}
