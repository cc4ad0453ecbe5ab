use peer_stream::audio::{capture_sample, sample_duration_millis, CaptureSample, SampleFormat};
use peer_stream::connection::{
    receiver_ice_reaction, sender_ice_reaction, sender_peer_state_ends_session,
    IceConnectionState, PeerConnectionState, ReceiverIceReaction, SenderIceReaction,
};
use peer_stream::constants::{AUDIO_CHANNELS, AUDIO_SAMPLE_RATE};
use peer_stream::receiver_side::{classify_track, track_kind_from_lowercase, TrackKind};

#[test]
fn receiver_reacts_to_ice_states() {
    assert_eq!(receiver_ice_reaction(IceConnectionState::Connected), ReceiverIceReaction::AnnounceConnected);
    assert_eq!(receiver_ice_reaction(IceConnectionState::Failed), ReceiverIceReaction::NotifyAndFinish);
    assert_eq!(receiver_ice_reaction(IceConnectionState::Checking), ReceiverIceReaction::Nothing);
    assert_eq!(receiver_ice_reaction(IceConnectionState::Disconnected), ReceiverIceReaction::Nothing);
}

#[test]
fn sender_reacts_to_ice_states() {
    assert_eq!(sender_ice_reaction(IceConnectionState::Connected), SenderIceReaction::NotifyAndWaitBarrier);
    assert_eq!(sender_ice_reaction(IceConnectionState::Failed), SenderIceReaction::Nothing);
    assert_eq!(sender_ice_reaction(IceConnectionState::Completed), SenderIceReaction::Nothing);
}

#[test]
fn sender_ends_session_on_failed_peer() {
    assert!(sender_peer_state_ends_session(PeerConnectionState::Failed));
    assert!(!sender_peer_state_ends_session(PeerConnectionState::Disconnected));
    assert!(!sender_peer_state_ends_session(PeerConnectionState::Connected));
}

#[test]
fn tracks_are_classified_by_mime_type() {
    assert_eq!(classify_track("audio/opus"), TrackKind::Audio);
    assert_eq!(classify_track("AUDIO/OPUS"), TrackKind::Audio);
    assert_eq!(classify_track("video/H264"), TrackKind::Video);
    assert_eq!(classify_track("video/h264"), TrackKind::Video);
    assert_eq!(classify_track("video/VP8"), TrackKind::Other);
    assert_eq!(classify_track(""), TrackKind::Other);
}

#[test]
fn track_kind_from_lowercase_forms() {
    let opus = "audio/opus".to_string();
    let h264 = "video/h264".to_string();
    assert_eq!(track_kind_from_lowercase(&"audio/opus".to_string(), &opus, &h264), TrackKind::Audio);
    assert_eq!(track_kind_from_lowercase(&"video/h264".to_string(), &opus, &h264), TrackKind::Video);
    assert_eq!(track_kind_from_lowercase(&"Audio/opus".to_string(), &opus, &h264), TrackKind::Other);
}

#[test]
fn capture_accepts_signed_and_float_formats() {
    assert_eq!(capture_sample(SampleFormat::I8), Ok(CaptureSample::I8));
    assert_eq!(capture_sample(SampleFormat::I16), Ok(CaptureSample::I16));
    assert_eq!(capture_sample(SampleFormat::I32), Ok(CaptureSample::I32));
    assert_eq!(capture_sample(SampleFormat::F32), Ok(CaptureSample::F32));
    assert_eq!(capture_sample(SampleFormat::U16), Err(SampleFormat::U16));
    assert_eq!(capture_sample(SampleFormat::F64), Err(SampleFormat::F64));
    assert_eq!(capture_sample(SampleFormat::I64), Err(SampleFormat::I64));
}

#[test]
fn audio_sample_duration() {
    assert_eq!(sample_duration_millis(AUDIO_CHANNELS, AUDIO_SAMPLE_RATE), 416);
    assert_eq!(sample_duration_millis(1, 10_000_000), 1);
    assert_eq!(sample_duration_millis(0, 48000), 0);
}
