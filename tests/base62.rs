use modrinth::base62::{decode, encode, DecodeError};
use modrinth::params::ProjectIdentifier;

#[test]
fn encode_known_values() {
    assert_eq!(encode(0), "0");
    assert_eq!(encode(61), "z");
    assert_eq!(encode(62), "10");
    assert_eq!(encode(3843), "zz");
    assert_eq!(encode(3844), "100");
    assert_eq!(encode(123456789), "8M0kX");
    assert_eq!(encode(u64::MAX), "LygHa16AHYF");
}

#[test]
fn decode_known_values() {
    assert_eq!(decode("0"), Ok(0));
    assert_eq!(decode("z"), Ok(61));
    assert_eq!(decode("10"), Ok(62));
    assert_eq!(decode("8M0kX"), Ok(123456789));
    assert_eq!(decode("LygHa16AHYF"), Ok(u64::MAX));
}

#[test]
fn decode_is_case_sensitive() {
    assert_eq!(decode("a"), Ok(36));
    assert_eq!(decode("A"), Ok(10));
}

#[test]
fn round_trip_many_values() {
    let values = [0u64, 1, 9, 10, 35, 36, 61, 62, 63, 1000, 987654321, 1 << 40, u64::MAX - 1, u64::MAX];
    for v in values {
        assert_eq!(decode(&encode(v)), Ok(v));
    }
}

#[test]
fn decode_rejects_characters_outside_alphabet() {
    assert_eq!(decode("ab-c"), Err(DecodeError::InvalidCharacter('-')));
    assert_eq!(decode("AB C"), Err(DecodeError::InvalidCharacter(' ')));
    assert_eq!(decode("ü"), Err(DecodeError::InvalidCharacter('ü')));
    assert_eq!(decode("12_"), Err(DecodeError::InvalidCharacter('_')));
}

#[test]
fn decode_reports_invalid_character_before_overflow() {
    assert_eq!(decode("zzzzzzzzzzzzzzz!"), Err(DecodeError::InvalidCharacter('!')));
}

#[test]
fn decode_rejects_overflow() {
    assert_eq!(decode("LygHa16AHYG"), Err(DecodeError::Overflow));
    assert_eq!(decode("zzzzzzzzzzzz"), Err(DecodeError::Overflow));
}

#[test]
fn identifier_renders_id_in_base62() {
    assert_eq!(ProjectIdentifier::Id(123456789).render(), "8M0kX");
    assert_eq!(ProjectIdentifier::Slug("sodium".to_string()).render(), "sodium");
}

#[test]
fn decode_empty_and_leading_zeros() {
    assert_eq!(decode(""), Ok(0));
    assert_eq!(decode("00z"), Ok(61));
}
