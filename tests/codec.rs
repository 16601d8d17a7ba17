use hash_ids::HashIds;
use tabby_schema_dao::codec::{AsID, AsRowid, Id, IdCodec};
use tabby_schema_dao::error::ConvertError;

fn decoded_by(salt: &str, min_length: usize, token: &Id) -> Vec<u64> {
    HashIds::builder().with_salt(salt).with_min_length(min_length).finish().decode(token.as_str())
}

#[test]
fn encode_then_decode_gives_the_id_back() {
    let codec = IdCodec::new();
    for id in [0i64, 1, 2, 42, 12345, 1 << 40, i64::MAX, -1, i64::MIN] {
        let token = codec.encode(id);
        let decoded = decoded_by("tabby-id-serializer", 6, &token);
        assert_eq!(codec.decode(&token, &decoded), Ok(id));
        assert_eq!(token.as_rowid(&codec, &decoded), Ok(id));
    }
}

#[test]
fn tokens_are_printable_and_at_least_six_long() {
    let codec = IdCodec::new();
    for id in [0i64, 1, 7, 999_999] {
        let token = codec.encode(id);
        assert!(token.as_str().len() >= 6);
        assert!(token.as_str().chars().all(|c| c.is_ascii_alphanumeric()));
    }
}

#[test]
fn encoding_is_deterministic_and_distinct() {
    let codec = IdCodec::new();
    assert_eq!(codec.encode(5), codec.encode(5));
    assert_ne!(codec.encode(5), codec.encode(6));
    assert_eq!(5i32.as_id(&codec), 5i64.as_id(&codec));
}

#[test]
fn token_is_not_the_raw_number() {
    let codec = IdCodec::new();
    assert_ne!(codec.encode(1).as_str(), "1");
}

#[test]
fn foreign_configuration_token_fails() {
    let ours = IdCodec::new();
    let theirs = IdCodec::with_config("another-salt".to_owned(), 6);
    let token = theirs.encode(77);
    let decoded = decoded_by("another-salt", 6, &token);
    assert_eq!(theirs.decode(&token, &decoded), Ok(77));
    assert_eq!(ours.decode(&token, &decoded), Err(ConvertError::IdentifierDecodeFailure));
}

#[test]
fn empty_decode_fails() {
    let codec = IdCodec::new();
    let token = Id::new(String::new());
    assert_eq!(codec.decode(&token, &Vec::new()), Err(ConvertError::IdentifierDecodeFailure));
}

#[test]
fn mismatched_numbers_fail() {
    let codec = IdCodec::new();
    let token = codec.encode(10);
    assert_eq!(codec.decode(&token, &vec![11]), Err(ConvertError::IdentifierDecodeFailure));
    let pair = Id::new(
        HashIds::builder().with_salt("tabby-id-serializer").with_min_length(6).finish().encode(&[10, 11]),
    );
    let decoded = decoded_by("tabby-id-serializer", 6, &pair);
    assert_eq!(decoded, vec![10, 11]);
    assert_eq!(codec.decode(&pair, &decoded), Err(ConvertError::IdentifierDecodeFailure));
}
