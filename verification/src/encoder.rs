//! The identifier encoder: a deterministic, salted, reversible mapping
//! between a `u64` and a string drawn from a restricted alphabet, with a
//! guaranteed minimum output length.
//!
//! The hashids computation itself is done by the `harsh` crate; its results
//! are named by the uninterpreted functions [`hashid_of`] and
//! [`hashid_decoded`], and everything the library claims about keys is
//! stated over those names.

use harsh::HarshBuilder;
use vstd::prelude::*;
use vstd::string::StrSliceExecFns;

verus! {

/// Why an encoder configuration was rejected.
#[derive(Clone, Copy, Debug, PartialEq, Eq, Structural)]
pub enum ConfigError {
    /// The alphabet holds no characters at all.
    EmptyAlphabet,
    /// The alphabet repeats a character.
    DuplicateCharacter,
    /// The minimum output length is zero.
    ZeroMinimumLength,
    /// The alphabet holds a character the hash engine cannot take:
    /// a space, the NUL character, or a character outside the ASCII range.
    UnsupportedCharacter,
    /// The alphabet holds fewer than 16 distinct characters, too few for
    /// the hash engine to separate keys.
    AlphabetTooSmall,
}

/// A character the hash engine can use: ASCII, and neither a space nor the
/// NUL character (a NUL in the alphabet can reach a division by zero inside
/// the engine's decoder).
pub open spec fn char_ok(c: char) -> bool {
    c != ' ' && 0 < (c as u32) < 128
}

/// No character occurs twice in `s`.
pub open spec fn distinct_chars(s: Seq<char>) -> bool {
    forall|i: int, j: int| 0 <= i < j < s.len() ==> s[i] != s[j]
}

/// Every character of `s` is one the hash engine can use.
pub open spec fn chars_ok(s: Seq<char>) -> bool {
    forall|i: int| 0 <= i < s.len() ==> char_ok(#[trigger] s[i])
}

/// The error, if any, that an encoder configuration is rejected with;
/// `None` exactly when the configuration is accepted.
pub open spec fn validate_config(alphabet: Seq<char>, min_length: usize) -> Option<ConfigError> {
    if alphabet.len() == 0 {
        Some(ConfigError::EmptyAlphabet)
    } else if !distinct_chars(alphabet) {
        Some(ConfigError::DuplicateCharacter)
    } else if min_length == 0 {
        Some(ConfigError::ZeroMinimumLength)
    } else if !chars_ok(alphabet) {
        Some(ConfigError::UnsupportedCharacter)
    } else if alphabet.len() < 16 {
        Some(ConfigError::AlphabetTooSmall)
    } else {
        None
    }
}

/// Every character of `key` is drawn from `alphabet`.
pub open spec fn chars_from(alphabet: Seq<char>, key: Seq<char>) -> bool {
    forall|i: int| 0 <= i < key.len() ==> alphabet.contains(#[trigger] key[i])
}

/// The hashids key that the `harsh` crate computes for `value` under the
/// given alphabet, salt and minimum length.  The computation is a pure
/// function of these arguments, so the result carries a name rather than a
/// page of algorithm.
pub uninterp spec fn hashid_of(
    alphabet: Seq<char>,
    salt: Seq<char>,
    min_length: nat,
    value: u64,
) -> Seq<char>;

/// The values, if any, that the `harsh` crate reads back out of `key` under
/// the given alphabet, salt and minimum length; `None` when `key` is not a
/// well-formed hashid for that configuration.
pub uninterp spec fn hashid_decoded(
    alphabet: Seq<char>,
    salt: Seq<char>,
    min_length: nat,
    key: Seq<char>,
) -> Option<Seq<u64>>;

/// Relies on `harsh::HarshBuilder::build` and `harsh::Harsh::encode`: with an
/// alphabet of at least 16 distinct ASCII characters, none a space or NUL,
/// initialization succeeds, and encoding one value returns a key that is a
/// function of the alphabet, the salt, the minimum length and the value
/// alone, is at least `min_length` characters long, is never empty, and is
/// made of alphabet characters only (lottery, digits, guards and padding are
/// all drawn from the configured alphabet).
/// Relies on `harsh::Harsh::decode` reversing `harsh::Harsh::encode`: the
/// returned key decodes back to exactly the one value that was encoded.
#[verifier::external_body]
fn hashid_encode(alphabet: &str, salt: &str, min_length: usize, value: u64) -> (r: String)
    requires
        alphabet@.len() >= 16,
        distinct_chars(alphabet@),
        chars_ok(alphabet@),
    ensures
        r@ == hashid_of(alphabet@, salt@, min_length as nat, value),
        r@.len() >= min_length,
        r@.len() >= 1,
        chars_from(alphabet@, r@),
        hashid_decoded(alphabet@, salt@, min_length as nat, r@) == Some(seq![value]),
{
    let engine = HarshBuilder::new()
        .salt(salt)
        .alphabet(alphabet)
        .length(min_length)
        .build()
        .expect("a validated alphabet builds");
    engine.encode(&[value])
}

/// Relies on `harsh::Harsh::decode`: its result is a function of the
/// alphabet, the salt, the minimum length and the key alone, and decoding is
/// the inverse of encoding — a key that `harsh::Harsh::encode` produced
/// decodes to exactly the values that were encoded.  Only keys the engine
/// itself produced are admitted: on an arbitrary string a digit segment can
/// denote a number beyond the `u64` range, and the engine accumulates it
/// with an unchecked addition; on a genuine key every partial sum is bounded
/// by the encoded value, so the accumulation stays in range.
#[verifier::external_body]
fn hashid_decode(alphabet: &str, salt: &str, min_length: usize, key: &str) -> (r: Option<Vec<u64>>)
    requires
        alphabet@.len() >= 16,
        distinct_chars(alphabet@),
        chars_ok(alphabet@),
        exists|v: u64| key@ == hashid_of(alphabet@, salt@, min_length as nat, v),
    ensures
        r matches Some(values) ==> hashid_decoded(alphabet@, salt@, min_length as nat, key@)
            == Some(values@),
        r is None ==> hashid_decoded(alphabet@, salt@, min_length as nat, key@) is None,
{
    let engine = HarshBuilder::new()
        .salt(salt)
        .alphabet(alphabet)
        .length(min_length)
        .build()
        .expect("a validated alphabet builds");
    engine.decode(key).ok()
}

/// A validated encoder configuration: an alphabet of distinct characters, a
/// salt, and a minimum output length.  Construction goes through
/// [`Encoder::new`], which rejects configurations the hash engine cannot
/// serve, so a caller holding an `Encoder` built there holds a working one.
#[derive(Debug)]
pub struct Encoder {
    alphabet: String,
    salt: String,
    min_length: usize,
}

impl Encoder {
    /// The ordered alphabet keys are drawn from.
    pub closed spec fn alphabet(self) -> Seq<char> {
        self.alphabet@
    }

    /// The salt that permutes the keys.
    pub closed spec fn salt(self) -> Seq<char> {
        self.salt@
    }

    /// The least number of characters in any key.
    pub closed spec fn min_length(self) -> usize {
        self.min_length
    }

    /// The configuration passed validation.
    pub open spec fn wf(self) -> bool {
        validate_config(self.alphabet(), self.min_length()) is None
    }

    /// The key this encoder gives `value`.
    pub open spec fn key_of(self, value: u64) -> Seq<char> {
        hashid_of(self.alphabet(), self.salt(), self.min_length() as nat, value)
    }

    /// The values this encoder reads back out of `key`.
    pub open spec fn decoded_of(self, key: Seq<char>) -> Option<Seq<u64>> {
        hashid_decoded(self.alphabet(), self.salt(), self.min_length() as nat, key)
    }

    /// Validate a configuration and build an encoder from it.  Fails exactly
    /// when [`validate_config`] rejects the alphabet or the length; succeeds
    /// on everything else, with the configuration taken over unchanged.
    pub fn new(alphabet: &str, salt: &str, min_length: usize) -> (r: Result<Encoder, ConfigError>)
        ensures
            (match validate_config(alphabet@, min_length) {
                Some(e) => r == Err::<Encoder, ConfigError>(e),
                None => (r matches Ok(encoder) && encoder.alphabet() == alphabet@
                    && encoder.salt() == salt@ && encoder.min_length() == min_length
                    && encoder.wf()),
            }),
    {
        let n = alphabet.unicode_len();
        if n == 0 {
            return Err(ConfigError::EmptyAlphabet);
        }
        let mut i: usize = 0;
        while i < n
            invariant
                n == alphabet@.len(),
                0 <= i <= n,
                forall|p: int, q: int| 0 <= p < i && p < q < n ==> alphabet@[p] != alphabet@[q],
            decreases n - i,
        {
            let c = alphabet.get_char(i);
            let mut j: usize = i + 1;
            while j < n
                invariant
                    n == alphabet@.len(),
                    0 <= i < j <= n,
                    c == alphabet@[i as int],
                    forall|q: int| i < q < j ==> alphabet@[i as int] != alphabet@[q],
                decreases n - j,
            {
                if c == alphabet.get_char(j) {
                    return Err(ConfigError::DuplicateCharacter);
                }
                j = j + 1;
            }
            i = i + 1;
        }
        assert(distinct_chars(alphabet@));
        if min_length == 0 {
            return Err(ConfigError::ZeroMinimumLength);
        }
        let mut i: usize = 0;
        while i < n
            invariant
                n == alphabet@.len(),
                1 <= n,
                1 <= min_length,
                distinct_chars(alphabet@),
                0 <= i <= n,
                forall|p: int| 0 <= p < i ==> char_ok(#[trigger] alphabet@[p]),
            decreases n - i,
        {
            let c = alphabet.get_char(i);
            if c == ' ' || (c as u32) == 0 || (c as u32) >= 128 {
                assert(!chars_ok(alphabet@)) by {
                    assert(!char_ok(alphabet@[i as int]));
                }
                return Err(ConfigError::UnsupportedCharacter);
            }
            i = i + 1;
        }
        assert(chars_ok(alphabet@));
        if n < 16 {
            return Err(ConfigError::AlphabetTooSmall);
        }
        Ok(
            Encoder {
                alphabet: alphabet.to_owned(),
                salt: salt.to_owned(),
                min_length,
            },
        )
    }

    /// Encode `value` into a key: at least `min_length` characters, never
    /// empty, drawn from the alphabet alone, and a pure function of the
    /// configuration and the value.
    pub fn encode(&self, value: u64) -> (r: String)
        requires
            self.wf(),
        ensures
            r@ == self.key_of(value),
            r@.len() >= self.min_length(),
            r@.len() >= 1,
            chars_from(self.alphabet(), r@),
            self.decoded_of(r@) == Some(seq![value]),
    {
        hashid_encode(self.alphabet.as_str(), self.salt.as_str(), self.min_length, value)
    }

    /// Decode a key this encoder produced back to the value it encodes:
    /// the inverse of [`Encoder::encode`].  Only keys that came out of this
    /// encoder are admitted; the hash engine does not promise a normal
    /// return on arbitrary strings.
    pub fn decode(&self, key: &str) -> (r: Option<u64>)
        requires
            self.wf(),
            exists|v: u64| key@ == self.key_of(v),
        ensures
            (match self.decoded_of(key@) {
                Some(values) => (if values.len() == 1 {
                    r == Some(values[0])
                } else {
                    r is None
                }),
                None => r is None,
            }),
    {
        proof {
            let v0 = choose|v: u64| key@ == self.key_of(v);
            assert(key@ == hashid_of(self.alphabet(), self.salt(), self.min_length() as nat, v0));
        }
        let decoded = hashid_decode(
            self.alphabet.as_str(),
            self.salt.as_str(),
            self.min_length,
            key,
        );
        match decoded {
            Some(values) => {
                if values.len() == 1 {
                    Some(values[0])
                } else {
                    None
                }
            },
            None => None,
        }
    }
}

/// Round trip: under any valid configuration, decoding an encoded key gives
/// back exactly the value that was encoded.
pub fn encode_then_decode(encoder: &Encoder, value: u64) -> (r: Option<u64>)
    requires
        encoder.wf(),
    ensures
        r == Some(value),
{
    let key = encoder.encode(value);
    proof {
        assert(key@ == encoder.key_of(value));
    }
    encoder.decode(key.as_str())
}

/// Determinism: under a fixed configuration, two encodings of the same value
/// are the same string, namely the key of that value.
pub fn encode_twice(encoder: &Encoder, value: u64) -> (r: (String, String))
    requires
        encoder.wf(),
    ensures
        r.0@ == encoder.key_of(value),
        r.0@ == r.1@,
{
    (encoder.encode(value), encoder.encode(value))
}

/// Injectivity: under a fixed configuration, distinct values always get
/// distinct keys, so sequentially generated keys never collide.
pub fn encode_distinct(encoder: &Encoder, v1: u64, v2: u64) -> (r: (String, String))
    requires
        encoder.wf(),
        v1 != v2,
    ensures
        r.0@ == encoder.key_of(v1),
        r.1@ == encoder.key_of(v2),
        r.0@ != r.1@,
{
    let k1 = encoder.encode(v1);
    let k2 = encoder.encode(v2);
    proof {
        if k1@ == k2@ {
            assert(seq![v1] == seq![v2]);
            assert(seq![v1][0] == seq![v2][0]);
            assert(false);
        }
    }
    (k1, k2)
}

} // verus!
