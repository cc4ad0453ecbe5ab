use peer_stream::communication::{decode, encode, text_from_decoded, CommunicationError};

#[test]
fn encode_writes_standard_base64() {
    assert_eq!(encode("hello"), "aGVsbG8=");
    assert_eq!(encode(""), "");
    assert_eq!(encode("{\"type\":\"offer\"}"), "eyJ0eXBlIjoib2ZmZXIifQ==");
}

#[test]
fn decode_reads_standard_base64() {
    assert_eq!(decode("aGVsbG8="), Ok("hello".to_string()));
    assert_eq!(decode(""), Ok(String::new()));
}

#[test]
fn decode_refuses_bad_base64() {
    assert_eq!(decode("not base64!"), Err(CommunicationError::Base64Decode));
    assert_eq!(decode("aGVsbG8"), Err(CommunicationError::Base64Decode));
}

#[test]
fn decode_refuses_bad_utf8() {
    // "/w==" is the single byte 0xff
    assert_eq!(decode("/w=="), Err(CommunicationError::Utf8Decode));
}

#[test]
fn decode_of_encode_roundtrip() {
    for s in ["", "a", "sdp v=0\r\no=- 1 2 IN IP4 0.0.0.0", "ñandú €"] {
        assert_eq!(decode(&encode(s)), Ok(s.to_string()));
    }
}

#[test]
fn text_from_decoded_bytes() {
    assert_eq!(text_from_decoded(None), Err(CommunicationError::Base64Decode));
    assert_eq!(text_from_decoded(Some(vec![104, 105])), Ok("hi".to_string()));
    assert_eq!(text_from_decoded(Some(vec![0xff])), Err(CommunicationError::Utf8Decode));
}

#[test]
fn error_messages() {
    assert_eq!(CommunicationError::Base64Decode.message(), "Error decoding base64");
    assert_eq!(CommunicationError::Utf8Decode.message(), "Error decoding utf8");
}

use peer_stream::communication::{
    read_offer, write_description, JsonError, OfferError, SdpType, SessionDescription,
};

#[test]
fn read_offer_parses_description() {
    let line = encode("{\"type\":\"offer\",\"sdp\":\"v=0\\r\\n\"}");
    let desc = read_offer(&line).expect("an offer");
    assert_eq!(desc.sdp, "v=0\r\n");
    assert_eq!(desc.sdp_type, SdpType::Offer);
}

#[test]
fn read_offer_refuses_bad_text() {
    assert_eq!(
        read_offer("%%%").err(),
        Some(OfferError::Text(CommunicationError::Base64Decode))
    );
    assert_eq!(
        read_offer("/w==").err(),
        Some(OfferError::Text(CommunicationError::Utf8Decode))
    );
}

#[test]
fn read_offer_refuses_bad_json() {
    assert_eq!(read_offer(&encode("not json")).err(), Some(OfferError::Json(JsonError::Syntax)));
    assert_eq!(read_offer(&encode("{\"sdp\":1}")).err(), Some(OfferError::Json(JsonError::Data)));
    assert_eq!(read_offer(&encode("{\"type\":")).err(), Some(OfferError::Json(JsonError::Eof)));
}

#[test]
fn written_description_reads_back() {
    for sdp_type in [SdpType::Unspecified, SdpType::Offer, SdpType::Pranswer, SdpType::Answer, SdpType::Rollback] {
        let desc = SessionDescription { sdp_type, sdp: "v=0\r\n\"quoted\" \\ ñ".to_string() };
        let line = write_description(&desc);
        let json = decode(&line).expect("base64 of UTF-8");
        assert!(json.contains("\"sdp\":"));
        let again = read_offer(&line).expect("reads back");
        assert_eq!(again.sdp_type, desc.sdp_type);
        assert_eq!(again.sdp, desc.sdp);
    }
}

#[test]
fn written_description_is_webrtc_json() {
    let desc = SessionDescription { sdp_type: SdpType::Answer, sdp: "v=0".to_string() };
    assert_eq!(decode(&write_description(&desc)), Ok("{\"type\":\"answer\",\"sdp\":\"v=0\"}".to_string()));
}

#[test]
fn encode_length() {
    for s in ["", "a", "ab", "abc", "abcd"] {
        assert_eq!(encode(s).len(), 4 * ((s.len() + 2) / 3));
    }
}
