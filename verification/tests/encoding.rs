use link_rs::encoder::encode_distinct;
use link_rs::encoder::encode_then_decode;
use link_rs::encoder::encode_twice;
use link_rs::ConfigError;
use link_rs::Encoder;

const ALPHABET: &str = "abcdefghijklmnopqrstuvwxyz0123456789";

#[test]
fn encode_matches_known_vector() {
    let encoder = Encoder::new(ALPHABET, "", 10).unwrap();
    assert_eq!(encoder.encode(0), "vq5ejng0p6");
}

#[test]
fn salted_encode_matches_known_vector() {
    let encoder = Encoder::new(ALPHABET, "salt", 10).unwrap();
    assert_eq!(encoder.encode(0), "9x5eo4n7ow");
}

#[test]
fn distinct_salts_change_output() {
    let unsalted = Encoder::new(ALPHABET, "", 10).unwrap();
    let salted = Encoder::new(ALPHABET, "salt", 10).unwrap();
    assert_ne!(unsalted.encode(0), salted.encode(0));
}

#[test]
fn encode_is_deterministic() {
    let encoder = Encoder::new(ALPHABET, "pepper", 12).unwrap();
    assert_eq!(encoder.encode(123_456_789), encoder.encode(123_456_789));
}

#[test]
fn encode_meets_minimum_length() {
    let encoder = Encoder::new(ALPHABET, "", 25).unwrap();
    for value in [0u64, 1, 35, 36, 1_000_000, u64::MAX] {
        assert!(encoder.encode(value).len() >= 25);
    }
}

#[test]
fn decode_inverts_encode() {
    let encoder = Encoder::new(ALPHABET, "round-trip", 10).unwrap();
    for value in [0u64, 1, 7, 36, 12_345, u64::MAX] {
        let key = encoder.encode(value);
        assert_eq!(encoder.decode(&key), Some(value));
    }
}

#[test]
fn empty_alphabet_is_rejected() {
    assert_eq!(
        Encoder::new("", "salt", 10).unwrap_err(),
        ConfigError::EmptyAlphabet
    );
}

#[test]
fn duplicate_characters_are_rejected() {
    assert_eq!(
        Encoder::new("abcdefghijklmnopqrstuvwxyza", "", 10).unwrap_err(),
        ConfigError::DuplicateCharacter
    );
}

#[test]
fn zero_minimum_length_is_rejected() {
    assert_eq!(
        Encoder::new(ALPHABET, "", 0).unwrap_err(),
        ConfigError::ZeroMinimumLength
    );
}

#[test]
fn space_in_alphabet_is_rejected() {
    assert_eq!(
        Encoder::new("abcdefghijklmnop qrstuvwxyz", "", 10).unwrap_err(),
        ConfigError::UnsupportedCharacter
    );
}

#[test]
fn nul_in_alphabet_is_rejected() {
    assert_eq!(
        Encoder::new("abdegjklmnopqrvw\0", "", 10).unwrap_err(),
        ConfigError::UnsupportedCharacter
    );
}

#[test]
fn non_ascii_alphabet_is_rejected() {
    assert_eq!(
        Encoder::new("abcdefghijklmnopqrstuvwxyzé", "", 10).unwrap_err(),
        ConfigError::UnsupportedCharacter
    );
}

#[test]
fn short_alphabet_is_rejected() {
    assert_eq!(
        Encoder::new("abcdefghijklmno", "", 10).unwrap_err(),
        ConfigError::AlphabetTooSmall
    );
}

#[test]
fn sixteen_characters_suffice() {
    let encoder = Encoder::new("abcdefghijklmnop", "", 4).unwrap();
    let key = encoder.encode(99);
    assert!(key.len() >= 4);
    assert_eq!(encoder.decode(&key), Some(99));
}

#[test]
fn round_trip_law_holds_at_runtime() {
    let encoder = Encoder::new(ALPHABET, "laws", 8).unwrap();
    assert_eq!(encode_then_decode(&encoder, 77), Some(77));
    let (a, b) = encode_twice(&encoder, 77);
    assert_eq!(a, b);
    let (k1, k2) = encode_distinct(&encoder, 3, 4);
    assert_ne!(k1, k2);
}
