//! The receiver side of a session: which remote tracks it plays.

use vstd::prelude::*;
use vstd::utf8::is_ascii_chars;

verus! {

/// The receiver side of a streaming session.
pub struct ReceiverSide {}

/// What a remote track carries, by its codec.
#[derive(Debug, Clone, Copy, PartialEq, Eq, Structural)]
pub enum TrackKind {
    /// Opus audio.
    Audio,
    /// H264 video.
    Video,
    /// Anything else; the track is not read.
    Other,
}

/// What `str::to_lowercase` gives for a text.
pub uninterp spec fn unicode_lowercase(s: Seq<char>) -> Seq<char>;

/// A text with `A` to `Z` replaced by `a` to `z`.
pub open spec fn ascii_lowercase(s: Seq<char>) -> Seq<char> {
    s.map_values(|c: char| if 'A' <= c <= 'Z' { ((c as u32) + 32) as char } else { c })
}

/// `str::to_lowercase`: the text with each character replaced by its Unicode lowercase.
/// On ASCII text that lowercase turns `A` to `Z` into `a` to `z` and keeps every other
/// character.
#[verifier::external_body]
fn to_lowercase(s: &str) -> (r: String)
    ensures
        r@ == unicode_lowercase(s@),
        is_ascii_chars(s@) ==> r@ == ascii_lowercase(s@),
{
    s.to_lowercase()
}

/// `webrtc::api::media_engine::MIME_TYPE_OPUS`, the MIME type of Opus audio.
#[verifier::external_body]
fn mime_type_opus() -> (m: &'static str)
    ensures
        m@ == "audio/opus"@,
{
    webrtc::api::media_engine::MIME_TYPE_OPUS
}

/// `webrtc::api::media_engine::MIME_TYPE_H264`, the MIME type of H264 video.
#[verifier::external_body]
fn mime_type_h264() -> (m: &'static str)
    ensures
        m@ == "video/H264"@,
{
    webrtc::api::media_engine::MIME_TYPE_H264
}

/// The kind of a track from the lowercase form of its MIME type, given the lowercase
/// forms of the Opus and H264 MIME types; Opus is tried first.
pub open spec fn kind_of_lowercase(mime: Seq<char>, opus: Seq<char>, h264: Seq<char>) -> TrackKind {
    if mime == opus {
        TrackKind::Audio
    } else if mime == h264 {
        TrackKind::Video
    } else {
        TrackKind::Other
    }
}

/// The kind of a track whose MIME type is `mime`, compared without regard to case.
pub open spec fn track_kind_spec(mime: Seq<char>) -> TrackKind {
    kind_of_lowercase(
        unicode_lowercase(mime),
        unicode_lowercase("audio/opus"@),
        unicode_lowercase("video/H264"@),
    )
}

/// The kind of a track from the lowercase forms of its MIME type and of the two known ones.
pub fn track_kind_from_lowercase(mime: &String, opus: &String, h264: &String) -> (k: TrackKind)
    ensures
        k == kind_of_lowercase(mime@, opus@, h264@),
{
    if *mime == *opus {
        TrackKind::Audio
    } else if *mime == *h264 {
        TrackKind::Video
    } else {
        TrackKind::Other
    }
}

/// The kind of a remote track, by its codec's MIME type.
/// On an ASCII MIME type this compares it, with `A` to `Z` taken as `a` to `z`, to
/// `audio/opus` and `video/h264`.
pub fn classify_track(mime_type: &str) -> (k: TrackKind)
    ensures
        k == track_kind_spec(mime_type@),
        is_ascii_chars(mime_type@) ==> k == kind_of_lowercase(
            ascii_lowercase(mime_type@),
            "audio/opus"@,
            "video/h264"@,
        ),
{
    let mime = to_lowercase(mime_type);
    let opus_type = mime_type_opus();
    let h264_type = mime_type_h264();
    proof {
        reveal_strlit("audio/opus");
        reveal_strlit("video/H264");
        reveal_strlit("video/h264");
        assert(is_ascii_chars(opus_type@));
        assert(is_ascii_chars(h264_type@));
    }
    let opus = to_lowercase(opus_type);
    let h264 = to_lowercase(h264_type);
    proof {
        assert(opus@ =~= "audio/opus"@);
        assert(h264@ =~= "video/h264"@);
    }
    track_kind_from_lowercase(&mime, &opus, &h264)
}

/// Tracks are told apart without regard to case: two MIME types with the same
/// lowercase form are of the same kind.
pub proof fn lemma_track_kind_ignores_case(a: Seq<char>, b: Seq<char>)
    requires
        unicode_lowercase(a) == unicode_lowercase(b),
    ensures
        track_kind_spec(a) == track_kind_spec(b),
{
}

} // verus!
