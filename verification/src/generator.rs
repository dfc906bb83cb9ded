//! The link generator: a wrapping 64-bit counter paired with an encoder.
//! Each generation call encodes the current counter value into a key,
//! advances the counter by exactly one, and joins the key onto a base
//! redirect path; optionally the URL is also rendered as a QR code by the
//! `qrcode` crate.

use crate::encoder::distinct_chars;
use crate::encoder::chars_ok;
use crate::encoder::validate_config;
use crate::encoder::chars_from;
use crate::encoder::Encoder;
use vstd::prelude::*;
use vstd::string::StrSliceExecFns;
use vstd::string::StringExecFns;

verus! {

/// A generated key and the redirect URL built from it.
#[derive(Debug, PartialEq, Eq)]
pub struct Link {
    pub key: String,
    pub url: String,
}

impl Link {
    /// Pair `key` with the URL obtained by appending it to `base`.
    pub fn new(base: &str, key: String) -> (r: Link)
        ensures
            r.key@ == key@,
            r.url@ == base@ + key@,
    {
        let mut url = base.to_owned();
        url.append(key.as_str());
        Link { key, url }
    }
}

/// The alphabet every generator encodes with: the lower-case letters
/// followed by the ten digits.
pub open spec fn default_alphabet() -> Seq<char> {
    "abcdefghijklmnopqrstuvwxyz0123456789"@
}

/// The default alphabet passes every configuration check, so a generator's
/// encoder always builds.
proof fn default_alphabet_accepted(min_length: usize)
    requires
        1 <= min_length,
    ensures
        validate_config(default_alphabet(), min_length) is None,
{
    reveal_strlit("abcdefghijklmnopqrstuvwxyz0123456789");
    assert(default_alphabet().len() == 36);
    assert(distinct_chars(default_alphabet()));
    assert(chars_ok(default_alphabet()));
}

/// The counter value that follows `id`: one more, wrapping to zero at the
/// top of the `u64` range.
pub open spec fn wrapped_next(id: u64) -> u64 {
    if id == u64::MAX {
        0
    } else {
        (id + 1) as u64
    }
}

/// The length of `base` once its trailing run of path separators, if any,
/// is dropped.
pub open spec fn trimmed_len(base: Seq<char>) -> int
    decreases base.len(),
{
    if base.len() > 0 && base[base.len() - 1] == '/' {
        trimmed_len(base.drop_last())
    } else {
        base.len() as int
    }
}

/// `base` normalized to end in exactly one path separator: a trailing run
/// of separators collapses to a single one, and one is appended when none
/// is there.
pub open spec fn with_trailing_slash(base: Seq<char>) -> Seq<char> {
    base.subrange(0, trimmed_len(base)) + "/"@
}

/// Where the trailing run of separators starts: everything from
/// `trimmed_len(base)` on is a separator, and the character just before it,
/// if any, is not.
proof fn lemma_trimmed_len(base: Seq<char>)
    ensures
        0 <= trimmed_len(base) <= base.len(),
        trimmed_len(base) > 0 ==> base[trimmed_len(base) - 1] != '/',
        forall|i: int| trimmed_len(base) <= i < base.len() ==> base[i] == '/',
    decreases base.len(),
{
    if base.len() > 0 && base[base.len() - 1] == '/' {
        lemma_trimmed_len(base.drop_last());
        assert(forall|i: int|
            trimmed_len(base) <= i < base.len() - 1 ==> base[i] == base.drop_last()[i]);
    }
}

/// Counter and encoder for generating redirect links.  The counter starts
/// at zero (unless restored through [`LinkGenerator::set_internal_id`]),
/// advances by exactly one per generation, and wraps on overflow.
pub struct LinkGenerator {
    id: u64,
    generator: Encoder,
    pub redirect_url: String,
}

impl LinkGenerator {
    /// The counter value the next key is derived from.
    pub closed spec fn internal_id(self) -> u64 {
        self.id
    }

    /// The encoder that keys are drawn from.
    pub closed spec fn encoder(self) -> Encoder {
        self.generator
    }

    /// The base path, as generated URLs carry it in front of the key.
    pub closed spec fn redirect(self) -> Seq<char> {
        self.redirect_url@
    }

    /// The generator's encoder configuration passed validation.
    pub open spec fn wf(self) -> bool {
        self.encoder().wf()
    }

    /// The key this generator gives `value`.
    pub open spec fn key_of(self, value: u64) -> Seq<char> {
        self.encoder().key_of(value)
    }

    /// Create a generator whose keys are salted, so that the generation
    /// pattern is not predictable from the outside.
    pub fn new_with_salt(redirect_url: &str, length: usize, salt: &str) -> (r: LinkGenerator)
        requires
            1 <= length,
        ensures
            r.wf(),
            r.internal_id() == 0,
            r.encoder().alphabet() == default_alphabet(),
            r.encoder().salt() == salt@,
            r.encoder().min_length() == length,
            r.redirect() == with_trailing_slash(redirect_url@),
    {
        proof {
            default_alphabet_accepted(length);
        }
        let built = Encoder::new("abcdefghijklmnopqrstuvwxyz0123456789", salt, length);
        let encoder = match built {
            Ok(encoder) => encoder,
            Err(_) => vstd::pervasive::unreached(),
        };
        let n = redirect_url.unicode_len();
        let mut k = n;
        proof {
            lemma_trimmed_len(redirect_url@);
        }
        while k > 0 && redirect_url.get_char(k - 1) == '/'
            invariant
                n == redirect_url@.len(),
                0 <= k <= n,
                trimmed_len(redirect_url@) <= k,
                forall|i: int| k <= i < n ==> redirect_url@[i] == '/',
            decreases k,
        {
            proof {
                lemma_trimmed_len(redirect_url@);
            }
            k = k - 1;
        }
        proof {
            lemma_trimmed_len(redirect_url@);
            if trimmed_len(redirect_url@) < k {
                assert(redirect_url@[k - 1] == '/');
            }
        }
        let trimmed = redirect_url.substring_char(0, k);
        let mut base = trimmed.to_owned();
        base.append("/");
        LinkGenerator { id: 0, generator: encoder, redirect_url: base }
    }

    /// Create a generator with a pre-set counter value, the seam by which a
    /// caller restores the counter across restarts.
    pub fn new_with_internal_id(
        id: u64,
        redirect_url: &str,
        length: usize,
        salt: Option<&str>,
    ) -> (r: LinkGenerator)
        requires
            1 <= length,
        ensures
            r.wf(),
            r.internal_id() == id,
            r.encoder().alphabet() == default_alphabet(),
            r.encoder().salt() == (match salt {
                Some(s) => s@,
                None => Seq::<char>::empty(),
            }),
            r.encoder().min_length() == length,
            r.redirect() == with_trailing_slash(redirect_url@),
    {
        let salt_str = match salt {
            Some(s) => s,
            None => "",
        };
        proof {
            reveal_strlit("");
            assert(""@ =~= Seq::<char>::empty());
        }
        let mut generator = Self::new_with_salt(redirect_url, length, salt_str);
        generator.set_internal_id(id);
        generator
    }

    /// Create an unsalted generator.
    pub fn new(redirect_url: &str, length: usize) -> (r: LinkGenerator)
        requires
            1 <= length,
        ensures
            r.wf(),
            r.internal_id() == 0,
            r.encoder().alphabet() == default_alphabet(),
            r.encoder().salt() == Seq::<char>::empty(),
            r.encoder().min_length() == length,
            r.redirect() == with_trailing_slash(redirect_url@),
    {
        proof {
            reveal_strlit("");
            assert(""@ =~= Seq::<char>::empty());
        }
        Self::new_with_salt(redirect_url, length, "")
    }

    /// Generate a new link: the key encodes the current counter value, the
    /// URL is the base path with the key appended, and the counter advances
    /// by exactly one, wrapping on overflow.
    pub fn generate_url(&mut self) -> (r: Link)
        requires
            old(self).wf(),
        ensures
            final(self).encoder() == old(self).encoder(),
            final(self).redirect() == old(self).redirect(),
            final(self).internal_id() == wrapped_next(old(self).internal_id()),
            r.key@ == old(self).key_of(old(self).internal_id()),
            r.key@.len() >= old(self).encoder().min_length(),
            r.key@.len() >= 1,
            chars_from(old(self).encoder().alphabet(), r.key@),
            old(self).encoder().decoded_of(r.key@) == Some(seq![old(self).internal_id()]),
            r.url@ == old(self).redirect() + r.key@,
    {
        let hashed = self.generator.encode(self.id);
        if self.id == u64::MAX {
            self.id = 0;
        } else {
            self.id = self.id + 1;
        }
        Link::new(self.redirect_url.as_str(), hashed)
    }

    /// The current counter value, for a caller that persists it.
    pub fn get_internal_id(&self) -> (r: u64)
        ensures
            r == self.internal_id(),
    {
        self.id
    }

    /// Generate a new link and render its URL as a QR code.  The counter
    /// advance is committed even when rendering fails: a caller must treat
    /// the returned error as coming after the side effect.
    pub fn generate_qr(&mut self) -> (r: Result<(qrcode::QrCode, Link), EncodingError>)
        requires
            old(self).wf(),
        ensures
            final(self).encoder() == old(self).encoder(),
            final(self).redirect() == old(self).redirect(),
            final(self).internal_id() == wrapped_next(old(self).internal_id()),
            (match r {
                Ok((code, link)) => qr_representable(
                    old(self).redirect() + old(self).key_of(old(self).internal_id()),
                ) && link.key@ == old(self).key_of(old(self).internal_id()) && link.url@ == old(
                    self,
                ).redirect() + link.key@,
                Err(e) => e == EncodingError::Barcode && !qr_representable(
                    old(self).redirect() + old(self).key_of(old(self).internal_id()),
                ),
            }),
    {
        let link = self.generate_url();
        match render_qr(link.url.as_str()) {
            Ok(code) => Ok((code, link)),
            Err(_) => Err(EncodingError::Barcode),
        }
    }

    /// Restore the counter to `input`; the next key encodes `input`.
    pub fn set_internal_id(&mut self, input: u64)
        ensures
            final(self).internal_id() == input,
            final(self).encoder() == old(self).encoder(),
            final(self).redirect() == old(self).redirect(),
    {
        self.id = input;
    }
}

/// Sequential generation: two successive calls on one generator return
/// links with distinct keys, the first encoding the counter value the
/// generator held and the second the value one past it.
pub fn generate_two(generator: &mut LinkGenerator) -> (r: (Link, Link))
    requires
        old(generator).wf(),
    ensures
        r.0.key@ == old(generator).key_of(old(generator).internal_id()),
        r.1.key@ == old(generator).key_of(wrapped_next(old(generator).internal_id())),
        r.0.key@ != r.1.key@,
{
    let ghost id0 = generator.internal_id();
    let first = generator.generate_url();
    let second = generator.generate_url();
    proof {
        assert(wrapped_next(id0) != id0);
        if first.key@ == second.key@ {
            assert(seq![id0] == seq![wrapped_next(id0)]);
            assert(seq![id0][0] == seq![wrapped_next(id0)][0]);
            assert(false);
        }
    }
    (first, second)
}

/// Why a generated URL could not be rendered as a QR code.
#[derive(Clone, Copy, Debug, PartialEq, Eq, Structural)]
pub enum EncodingError {
    /// The barcode renderer cannot represent the URL, e.g. it exceeds the
    /// renderer's capacity.
    Barcode,
}

#[verifier::external_type_specification]
#[verifier::external_body]
pub struct ExQrCode(qrcode::QrCode);

#[verifier::external_type_specification]
#[verifier::external_body]
pub struct ExQrError(qrcode::types::QrError);

/// Whether the QR renderer can represent `text`: a pure function of the
/// data, since the renderer picks the smallest fitting format
/// deterministically.
pub uninterp spec fn qr_representable(text: Seq<char>) -> bool;

/// Relies on `qrcode::QrCode::new`: it succeeds or fails depending on the
/// data alone (the smallest version that fits, at medium error correction).
#[verifier::external_body]
fn render_qr(text: &str) -> (r: Result<qrcode::QrCode, qrcode::types::QrError>)
    ensures
        r is Ok <==> qr_representable(text@),
{
    qrcode::QrCode::new(text)
}

} // verus!
