//! Tests for the extra-parameter codec.

use rusty_addon::codec::{decode, encode, DecodeError};

#[test]
fn decode_single_identifier() {
    let r = decode("lastVideosIds", "lastVideosIds=tt1254207.json").unwrap();
    assert_eq!(r, vec!["tt1254207".to_string()]);
}

#[test]
fn decode_preserves_order_and_duplicates() {
    let r = decode("lastVideosIds", "lastVideosIds=tt2,tt1,tt2.json").unwrap();
    assert_eq!(
        r,
        vec!["tt2".to_string(), "tt1".to_string(), "tt2".to_string()]
    );
}

#[test]
fn decode_keeps_later_empty_values() {
    let r = decode("lastVideosIds", "lastVideosIds=a,,b.json").unwrap();
    assert_eq!(r, vec!["a".to_string(), String::new(), "b".to_string()]);
}

#[test]
fn decode_empty_interior_is_empty_query() {
    let r = decode("lastVideosIds", "lastVideosIds=.json");
    assert_eq!(r, Err(DecodeError::EmptyQuery));
}

#[test]
fn decode_leading_comma_is_empty_query() {
    let r = decode("lastVideosIds", "lastVideosIds=,tt1.json");
    assert_eq!(r, Err(DecodeError::EmptyQuery));
}

#[test]
fn decode_missing_suffix_is_malformed() {
    let r = decode("lastVideosIds", "lastVideosIds=tt1");
    assert_eq!(r, Err(DecodeError::MalformedSegment));
}

#[test]
fn decode_missing_key_is_malformed() {
    let r = decode("lastVideosIds", "otherKey=tt1.json");
    assert_eq!(r, Err(DecodeError::MalformedSegment));
}

#[test]
fn decode_missing_equals_is_malformed() {
    let r = decode("lastVideosIds", "lastVideosIdstt1.json");
    assert_eq!(r, Err(DecodeError::MalformedSegment));
}

#[test]
fn decode_too_short_is_malformed() {
    let r = decode("lastVideosIds", ".json");
    assert_eq!(r, Err(DecodeError::MalformedSegment));
}

#[test]
fn round_trip_restores_the_segment() {
    let segment = "lastVideosIds=tt7772588,kitsu:44081,tt1.json";
    let values = decode("lastVideosIds", segment).unwrap();
    let rebuilt = encode("lastVideosIds", &values);
    assert_eq!(rebuilt, segment);
}

#[test]
fn encode_single_value() {
    let rebuilt = encode("lastVideosIds", &vec!["tt1".to_string()]);
    assert_eq!(rebuilt, "lastVideosIds=tt1.json");
}

#[test]
fn encode_empty_list() {
    let rebuilt = encode("k", &Vec::new());
    assert_eq!(rebuilt, "k=.json");
}
