use party_finder::codec::{
    dec_bytes, decode_error_message, encode_listing, encode_outbound, escape_bytes, parse_frame,
    DecodeError,
};
use party_finder::listing::Listing;
use party_finder::protocol::{Channel, InboundMsg, OutboundMsg};

fn listing(id: u32, world: u16, seconds_remaining: u16) -> Listing {
    Listing {
        id,
        last_server_restart: 7,
        created_world: world,
        home_world: world,
        current_world: world,
        seconds_remaining,
        category: 3,
        search_area: 8,
        name: b"Recruiter".to_vec(),
        description: b"come join".to_vec(),
    }
}

#[test]
fn parse_subscribe_frame() {
    let r = parse_frame(&b"{\"type\":\"subscribe\",\"channel\":\"listings\"}".to_vec());
    assert_eq!(r, Ok(InboundMsg::Subscribe { channel: Channel::Listings }));
}

#[test]
fn parse_unsubscribe_frame() {
    let r = parse_frame(&b"{\"type\":\"unsubscribe\",\"channel\":\"listings\"}".to_vec());
    assert_eq!(r, Ok(InboundMsg::Unsubscribe { channel: Channel::Listings }));
}

#[test]
fn parse_allows_blanks_and_either_key_order() {
    let r = parse_frame(&b" { \"channel\" : \"listings\" ,\n\t\"type\" : \"subscribe\" } ".to_vec());
    assert_eq!(r, Ok(InboundMsg::Subscribe { channel: Channel::Listings }));
}

#[test]
fn parse_rejects_unknown_type_and_channel() {
    assert_eq!(
        parse_frame(&b"{\"type\":\"ping\",\"channel\":\"listings\"}".to_vec()),
        Err(DecodeError::Malformed)
    );
    assert_eq!(
        parse_frame(&b"{\"type\":\"subscribe\",\"channel\":\"news\"}".to_vec()),
        Err(DecodeError::Malformed)
    );
}

#[test]
fn parse_rejects_broken_frames() {
    for bad in [
        &b""[..],
        b"{}",
        b"subscribe",
        b"{\"type\":\"subscribe\"}",
        b"{\"type\":\"subscribe\",\"type\":\"subscribe\"}",
        b"{\"type\":\"subscribe\",\"channel\":\"listings\"",
        b"{\"type\":\"subscribe\",\"channel\":\"listings\"}x",
        b"{\"type\":subscribe,\"channel\":\"listings\"}",
    ] {
        assert_eq!(parse_frame(&bad.to_vec()), Err(DecodeError::Malformed));
    }
}

#[test]
fn decode_error_text_is_fixed() {
    assert_eq!(decode_error_message(), b"invalid control frame".to_vec());
}

#[test]
fn encode_control_frames() {
    let out = encode_outbound(&OutboundMsg::Subscribed { channel: Channel::Listings });
    assert_eq!(out, b"{\"type\":\"subscribed\",\"channel\":\"listings\"}".to_vec());
    let out = encode_outbound(&OutboundMsg::Unsubscribed { channel: Channel::Listings });
    assert_eq!(out, b"{\"type\":\"unsubscribed\",\"channel\":\"listings\"}".to_vec());
}

#[test]
fn encode_error_frame_escapes_message() {
    let out = encode_outbound(&OutboundMsg::Error { message: b"bad \"x\"\n".to_vec() });
    assert_eq!(out, b"{\"type\":\"err\",\"message\":\"bad \\\"x\\\"\\u000a\"}".to_vec());
}

#[test]
fn encode_one_listing() {
    let out = encode_listing(&listing(1, 2, 100));
    let expected = b"{\"id\":1,\"last_server_restart\":7,\"created_world\":2,\
\"home_world\":2,\"current_world\":2,\"seconds_remaining\":100,\"category\":3,\
\"search_area\":8,\"name\":\"Recruiter\",\"description\":\"come join\"}";
    assert_eq!(out, expected.to_vec());
}

#[test]
fn encode_listings_frame_with_two_batched() {
    let msg = OutboundMsg::Listings { listings: vec![listing(1, 2, 100), listing(5, 2, 60)] };
    let out = encode_outbound(&msg);
    let s = String::from_utf8(out).unwrap();
    assert!(s.starts_with("{\"type\":\"listings\",\"listings\":[{\"id\":1,"));
    assert!(s.contains("},{\"id\":5,"));
    assert!(s.ends_with("]}"));
}

#[test]
fn encode_empty_batch() {
    let out = encode_outbound(&OutboundMsg::Listings { listings: Vec::new() });
    assert_eq!(out, b"{\"type\":\"listings\",\"listings\":[]}".to_vec());
}

#[test]
fn decimal_encoding() {
    assert_eq!(dec_bytes(0), b"0".to_vec());
    assert_eq!(dec_bytes(7), b"7".to_vec());
    assert_eq!(dec_bytes(12345), b"12345".to_vec());
    assert_eq!(dec_bytes(4294967295), b"4294967295".to_vec());
}

#[test]
fn escaping_bytes() {
    assert_eq!(escape_bytes(&b"plain".to_vec()), b"plain".to_vec());
    assert_eq!(escape_bytes(&b"a\"b".to_vec()), b"a\\\"b".to_vec());
    assert_eq!(escape_bytes(&b"a\\b".to_vec()), b"a\\\\b".to_vec());
    assert_eq!(escape_bytes(&vec![0u8, 10, 255]), b"\\u0000\\u000a\\u00ff".to_vec());
}

#[test]
fn encoded_subscribe_ack_mirrors_inbound_grammar() {
    // The canonical outbound acknowledgment uses the same object shape the
    // decoder accepts for inbound frames; sanity-check the decoder against
    // a hand-built frame of that shape.
    let frame = b"{\"type\":\"subscribe\",\"channel\":\"listings\"}".to_vec();
    assert!(parse_frame(&frame).is_ok());
}
