use talkcody_llm::json::{decode, Decoded, Json};

#[test]
fn decode_reads_an_object() {
    match decode("{\"a\": 1, \"b\": \"x\"}") {
        Decoded::Value(v) => {
            assert_eq!(v.get("a").and_then(|j| j.as_i64()), Some(1));
            assert_eq!(v.get("b").and_then(|j| j.as_str()), Some("x"));
            assert!(v.get("c").is_none());
        }
        _ => panic!("expected a value"),
    }
}

#[test]
fn decode_tells_truncated_from_malformed() {
    assert!(matches!(decode("{\"a\": "), Decoded::Truncated(_)));
    assert!(matches!(decode("{\"a\" 1}"), Decoded::Malformed(_)));
    assert!(matches!(decode("nul"), Decoded::Truncated(_)));
    assert!(matches!(decode("[1, 2]"), Decoded::Value(Json::Array(_))));
}

#[test]
fn decode_failure_comes_with_the_decoder_s_words() {
    assert_eq!(decode("[1, "), Decoded::Truncated("EOF while parsing a value at line 1 column 4".to_string()));
    assert_eq!(decode("{]"), Decoded::Malformed("key must be a string at line 1 column 2".to_string()));
}

#[test]
fn decode_keeps_numbers_as_they_are() {
    match decode("[-3, 18446744073709551615, 1.5, 9223372036854775807]") {
        Decoded::Value(Json::Array(items)) => {
            assert_eq!(items[0], Json::Int(-3));
            assert_eq!(items[1], Json::UInt(u64::MAX));
            assert_eq!(items[2], Json::Real(1.5f64.to_bits()));
            assert_eq!(items[3].as_i64(), Some(i64::MAX));
            assert_eq!(items[1].as_i64(), None);
        }
        other => panic!("unexpected {:?}", other),
    }
}
