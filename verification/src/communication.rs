//! The text form in which a session description travels between the peers:
//! standard base64 (with padding) of its UTF-8 JSON.

use vstd::prelude::*;
use vstd::utf8::*;
use vstd::string::StringSliceAdditionalSpecFns;
use base64::prelude::BASE64_STANDARD;
use base64::Engine;
use webrtc::peer_connection::sdp::session_description::RTCSessionDescription;
use webrtc::peer_connection::sdp::sdp_type::RTCSdpType as T;
use serde_json::error::Category;

verus! {

/// `base64::DecodeError`, the error of a base64 decode.
#[verifier::external_type_specification]
#[verifier::external_body]
pub struct ExDecodeError(base64::DecodeError);

/// What `BASE64_STANDARD.decode` gives for the bytes of a text: the decoded bytes, or
/// `None` where the text is not standard padded base64.
pub uninterp spec fn base64_standard_decode(text: Seq<char>) -> Option<Seq<u8>>;

/// What `BASE64_STANDARD.encode` writes for the bytes of a text.
pub uninterp spec fn base64_standard_encode(text: Seq<char>) -> Seq<char>;

/// `BASE64_STANDARD.decode(s)` of the `base64` crate.
#[verifier::external_body]
fn base64_decode(s: &str) -> (r: Result<Vec<u8>, base64::DecodeError>)
    ensures
        (r is Ok) == (base64_standard_decode(s@) is Some),
        r matches Ok(bytes) ==> bytes@ == base64_standard_decode(s@).unwrap(),
{
    BASE64_STANDARD.decode(s)
}

/// `BASE64_STANDARD.encode(s)` of the `base64` crate: four characters for each group of
/// up to three bytes, padded. The crate's encode and decode with the same engine are
/// inverse: decoding what was encoded gives back the bytes.
/// Encoding panics only where the output length overflows `usize`, which the bound on
/// the input rules out.
#[verifier::external_body]
fn base64_encode(s: &str) -> (r: String)
    requires
        s.spec_bytes().len() <= isize::MAX,
    ensures
        r@ == base64_standard_encode(s@),
        r@.len() == 4 * ((s.spec_bytes().len() + 2) / 3),
        base64_standard_decode(r@) == Some(s.spec_bytes()),
{
    BASE64_STANDARD.encode(s)
}

/// `String::from_utf8`: the text whose UTF-8 encoding is `bytes`, where they are valid UTF-8.
#[verifier::external_body]
fn string_from_utf8(bytes: Vec<u8>) -> (r: Option<String>)
    ensures
        (r is Some) == valid_utf8(bytes@),
        r matches Some(s) ==> s@ == decode_utf8(bytes@),
{
    String::from_utf8(bytes).ok()
}

/// Why a received session description could not be read.
#[derive(Debug, Clone, Copy, PartialEq, Eq, Structural)]
pub enum CommunicationError {
    /// The text is not base64.
    Base64Decode,
    /// The decoded bytes are not UTF-8.
    Utf8Decode,
}

impl CommunicationError {
    /// The error's message.
    pub fn message(&self) -> (m: &'static str)
        ensures
            *self == CommunicationError::Base64Decode ==> m@ == "Error decoding base64"@,
            *self == CommunicationError::Utf8Decode ==> m@ == "Error decoding utf8"@,
    {
        match self {
            CommunicationError::Base64Decode => "Error decoding base64",
            CommunicationError::Utf8Decode => "Error decoding utf8",
        }
    }
}

/// The text of decoded bytes: an error where base64 decoding failed (`None`), or where
/// the bytes are not UTF-8.
pub open spec fn text_of_decoded(decoded: Option<Seq<u8>>) -> Result<Seq<char>, CommunicationError> {
    match decoded {
        None => Err(CommunicationError::Base64Decode),
        Some(bytes) => if valid_utf8(bytes) {
            Ok(decode_utf8(bytes))
        } else {
            Err(CommunicationError::Utf8Decode)
        },
    }
}

/// What `decode` gives for a text.
pub open spec fn decode_spec(s: Seq<char>) -> Result<Seq<char>, CommunicationError> {
    text_of_decoded(base64_standard_decode(s))
}

/// A `Result<String, _>` seen through the view of its text.
pub open spec fn text_result_view(r: Result<String, CommunicationError>) -> Result<Seq<char>, CommunicationError> {
    match r {
        Ok(s) => Ok(s@),
        Err(e) => Err(e),
    }
}

/// The text of the bytes that base64 decoding gave (`None` where it failed).
pub fn text_from_decoded(decoded: Option<Vec<u8>>) -> (r: Result<String, CommunicationError>)
    ensures
        text_result_view(r) == text_of_decoded(
            match decoded {
                Some(b) => Some(b@),
                None => None,
            },
        ),
{
    match decoded {
        None => Err(CommunicationError::Base64Decode),
        Some(bytes) => match string_from_utf8(bytes) {
            Some(s) => Ok(s),
            None => Err(CommunicationError::Utf8Decode),
        },
    }
}

/// Decodes a base64 string into the text it carries.
pub fn decode(s: &str) -> (r: Result<String, CommunicationError>)
    ensures
        text_result_view(r) == decode_spec(s@),
{
    let decoded = match base64_decode(s) {
        Ok(bytes) => Some(bytes),
        Err(_) => None,
    };
    text_from_decoded(decoded)
}

/// A WebRTC session description (`webrtc`'s `RTCSessionDescription`).
#[verifier::external_type_specification]
#[verifier::external_body]
pub struct ExRTCSessionDescription(RTCSessionDescription);

/// `serde_json::Error`, the error of a JSON parse.
#[verifier::external_type_specification]
#[verifier::external_body]
pub struct ExJsonError(serde_json::Error);

/// The type of a session description.
#[derive(Debug, Clone, Copy, PartialEq, Eq, Structural)]
pub enum SdpType {
    Unspecified,
    Offer,
    Pranswer,
    Answer,
    Rollback,
}

/// A session description: its type and its SDP text.
#[derive(Debug, Clone)]
pub struct SessionDescription {
    pub sdp_type: SdpType,
    pub sdp: String,
}

/// The value of a session description: its type and the characters of its SDP.
pub struct SessionDescriptionView {
    pub sdp_type: SdpType,
    pub sdp: Seq<char>,
}

impl View for SessionDescription {
    type V = SessionDescriptionView;

    open spec fn view(&self) -> SessionDescriptionView {
        SessionDescriptionView { sdp_type: self.sdp_type, sdp: self.sdp@ }
    }
}

/// Why a JSON text could not be read, as `serde_json::Error::classify` tells.
#[derive(Debug, Clone, Copy, PartialEq, Eq, Structural)]
pub enum JsonError {
    Io,
    Syntax,
    Data,
    Eof,
}

/// What `serde_json::from_str::<RTCSessionDescription>` gives for a text: the
/// description's type and SDP, or the class of the error.
pub uninterp spec fn session_description_of_json(text: Seq<char>) -> Result<
    SessionDescriptionView,
    JsonError,
>;

/// What `serde_json::to_string` writes for an `RTCSessionDescription` of the given
/// type and SDP.
pub uninterp spec fn session_description_json(desc: SessionDescriptionView) -> Seq<char>;

/// A parsed session description seen through its view.
pub open spec fn json_result_view(r: Result<SessionDescription, JsonError>) -> Result<SessionDescriptionView, JsonError> {
    match r {
        Ok(d) => Ok(d@),
        Err(e) => Err(e),
    }
}

/// A description that was read.
pub open spec fn description_view_ok(d: SessionDescription) -> Result<SessionDescriptionView, JsonError> {
    Ok(d@)
}

/// `serde_json::from_str::<RTCSessionDescription>(text)`, its type and SDP taken out,
/// or its error's class.
#[verifier::external_body]
fn parse_session_description(text: &str) -> (r: Result<SessionDescription, JsonError>)
    ensures
        json_result_view(r) == session_description_of_json(text@),
{
    match serde_json::from_str::<RTCSessionDescription>(text) {
        Ok(d) => Ok(SessionDescription { sdp: d.sdp, sdp_type: match d.sdp_type {
            T::Unspecified => SdpType::Unspecified, T::Offer => SdpType::Offer,
            T::Pranswer => SdpType::Pranswer, T::Answer => SdpType::Answer,
            T::Rollback => SdpType::Rollback } }),
        Err(e) => Err(match e.classify() {
            Category::Io => JsonError::Io, Category::Syntax => JsonError::Syntax,
            Category::Data => JsonError::Data, Category::Eof => JsonError::Eof }),
    }
}

/// `serde_json::to_string` of the `RTCSessionDescription` with the given type and SDP.
/// It succeeds: the type's `Serialize` is derived over a `String` and an enum of unit
/// variants, and `to_string` fails only where a `Serialize` fails or a map has
/// non-string keys. The derived `Deserialize` of the same type reads the text back as
/// the same type and SDP. Like every `String`, the text holds at most `isize::MAX` bytes.
#[verifier::external_body]
fn session_description_to_json(desc: &SessionDescription) -> (r: Option<String>)
    ensures
        r is Some,
        r matches Some(json) ==> json@ == session_description_json(desc@),
        r matches Some(json) ==> session_description_of_json(json@) == description_view_ok(*desc),
        r matches Some(json) ==> encode_utf8(json@).len() <= isize::MAX,
{
    let mut d = RTCSessionDescription::default();
    d.sdp = desc.sdp.clone();
    d.sdp_type = match desc.sdp_type {
        SdpType::Unspecified => T::Unspecified, SdpType::Offer => T::Offer,
        SdpType::Pranswer => T::Pranswer, SdpType::Answer => T::Answer,
        SdpType::Rollback => T::Rollback };
    serde_json::to_string(&d).ok()
}

/// Why the other peer's session description could not be read.
#[derive(Debug, Clone, Copy, PartialEq, Eq, Structural)]
pub enum OfferError {
    /// The line is not the base64 of a UTF-8 text.
    Text(CommunicationError),
    /// The text is not the JSON of a session description.
    Json(JsonError),
}

/// What `read_offer` gives for a line.
pub open spec fn read_offer_spec(line: Seq<char>) -> Result<SessionDescriptionView, OfferError> {
    match decode_spec(line) {
        Err(e) => Err(OfferError::Text(e)),
        Ok(text) => match session_description_of_json(text) {
            Ok(d) => Ok(d),
            Err(e) => Err(OfferError::Json(e)),
        },
    }
}

/// A read session description seen through its view.
pub open spec fn offer_result_view(r: Result<SessionDescription, OfferError>) -> Result<SessionDescriptionView, OfferError> {
    match r {
        Ok(d) => Ok(d@),
        Err(e) => Err(e),
    }
}

/// The session description in a text: the text parsed as the JSON of a session
/// description, or why it is not one.
pub fn description_from_json_result(
    parsed: Result<SessionDescription, JsonError>,
) -> (r: Result<SessionDescription, OfferError>)
    ensures
        offer_result_view(r) == match parsed {
            Ok(d) => Ok::<SessionDescriptionView, OfferError>(d@),
            Err(e) => Err(OfferError::Json(e)),
        },
{
    match parsed {
        Ok(d) => Ok(d),
        Err(e) => Err(OfferError::Json(e)),
    }
}

/// The session description in a line pasted by the user: the line is decoded from
/// base64 to a text, and the text parsed as the JSON of a session description.
pub fn read_offer(line: &str) -> (r: Result<SessionDescription, OfferError>)
    ensures
        offer_result_view(r) == read_offer_spec(line@),
{
    let text = match decode(line) {
        Ok(text) => text,
        Err(e) => return Err(OfferError::Text(e)),
    };
    description_from_json_result(parse_session_description(text.as_str()))
}

/// The line to hand to the other peer for a session description: the base64 of its
/// JSON. What it writes, `decode` reads back as that JSON and `read_offer` as the same
/// description.
pub fn write_description(desc: &SessionDescription) -> (line: String)
    ensures
        decode_spec(line@) == Ok::<Seq<char>, CommunicationError>(session_description_json(desc@)),
        read_offer_spec(line@) == Ok::<SessionDescriptionView, OfferError>(desc@),
{
    let json = session_description_to_json(desc);
    match json {
        Some(json) => encode(json.as_str()),
        // Serializing a session description never fails.
        None => {
            assert(false);
            String::new()
        },
    }
}

/// Encodes a text as base64. What it writes, `decode` reads back as the same text.
pub fn encode(b: &str) -> (r: String)
    requires
        b.spec_bytes().len() <= isize::MAX,
    ensures
        r@ == base64_standard_encode(b@),
        r@.len() == 4 * ((b.spec_bytes().len() + 2) / 3),
        decode_spec(r@) == Ok::<Seq<char>, CommunicationError>(b@),
{
    let r = base64_encode(b);
    proof {
        encode_utf8_valid_utf8(b@);
        encode_utf8_decode_utf8(b@);
    }
    r
}

} // verus!
