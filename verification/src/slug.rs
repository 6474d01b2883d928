//! Bump slugs.
//!
//! A slug is 16 raw bytes on chain and a URL-safe string in a path. The
//! encoding is base64url without padding, which fits 16 bytes into 22
//! characters and survives a URL untouched.
//!
//! Randomness is deliberately not generated here: the caller supplies the
//! bytes from whatever secure source it has.

use vstd::prelude::*;

use vstd::string::StringSliceAdditionalSpecFns;
use vstd::utf8::{encode_utf8, is_ascii_chars, is_ascii_chars_encode_utf8};

use crate::text::{chars_of, push_char, push_str};
use crate::units::{decimal, push_decimal};

verus! {

/// Length in bytes of a slug.
pub const SLUG_LEN: usize = 16;

/// Length in characters of an encoded slug.
pub const SLUG_TEXT_LEN: usize = 22;

/// A bump slug: sixteen caller-supplied bytes.
#[derive(Debug, Clone, Copy, PartialEq, Eq)]
pub struct Slug(pub [u8; 16]);

impl View for Slug {
    type V = Seq<u8>;

    open spec fn view(&self) -> Seq<u8> {
        self.0@
    }
}

/// Why a string is not a slug.
#[derive(Debug, Clone, Copy, PartialEq, Eq)]
pub enum SlugError {
    /// The string is not 22 bytes long; carries the length it has.
    WrongLength(usize),
    /// The first character outside the base64url alphabet.
    BadCharacter(char),
}

/// The base64url character for a 6-bit value.
pub open spec fn symbol(v: int) -> char {
    if v < 26 {
        (65 + v) as char
    } else if v < 52 {
        (97 + (v - 26)) as char
    } else if v < 62 {
        (48 + (v - 52)) as char
    } else if v == 62 {
        '-'
    } else {
        '_'
    }
}

/// The 6-bit value of a base64url character, if it is one.
pub open spec fn symbol_value(c: char) -> Option<int> {
    let n = c as int;
    if 65 <= n <= 90 {
        Some(n - 65)
    } else if 97 <= n <= 122 {
        Some(n - 97 + 26)
    } else if 48 <= n <= 57 {
        Some(n - 48 + 52)
    } else if c == '-' {
        Some(62)
    } else if c == '_' {
        Some(63)
    } else {
        None
    }
}

/// The symbols are RFC 4648's base64url alphabet: value `v` is the `v`-th
/// character of `A`-`Z`, `a`-`z`, `0`-`9`, `-`, `_`, and each of those
/// characters reads back as its position, and nothing else reads as a
/// value. So a slug's text is standard unpadded base64url, not only text
/// this module's own parser accepts.
pub proof fn lemma_symbols_are_the_base64url_alphabet()
    ensures
        forall|v: int|
            0 <= v < 64 ==> symbol(v)
                == "ABCDEFGHIJKLMNOPQRSTUVWXYZabcdefghijklmnopqrstuvwxyz0123456789-_"@[v],
        forall|v: int|
            0 <= v < 64 ==> symbol_value(
                "ABCDEFGHIJKLMNOPQRSTUVWXYZabcdefghijklmnopqrstuvwxyz0123456789-_"@[v],
            ) == Some(v),
        forall|c: char|
            #![trigger symbol_value(c)]
            symbol_value(c) matches Some(v) ==> 0 <= v < 64
                && "ABCDEFGHIJKLMNOPQRSTUVWXYZabcdefghijklmnopqrstuvwxyz0123456789-_"@[v] == c,
{
    reveal_strlit("ABCDEFGHIJKLMNOPQRSTUVWXYZabcdefghijklmnopqrstuvwxyz0123456789-_");
}

/// The byte at `i`, or zero past the end: base64 pads the last group with
/// zero bits.
pub open spec fn byte_or_zero(b: Seq<u8>, i: int) -> u8 {
    if 0 <= i < b.len() {
        b[i]
    } else {
        0
    }
}

/// The `k`-th 6-bit group of `b` read as a big-endian bit string, padded
/// with zero bits at the end. Each run of three bytes gives four groups.
pub open spec fn sextet(b: Seq<u8>, k: int) -> u8 {
    let q = k / 4;
    let b0 = byte_or_zero(b, 3 * q);
    let b1 = byte_or_zero(b, 3 * q + 1);
    let b2 = byte_or_zero(b, 3 * q + 2);
    if k % 4 == 0 {
        b0 >> 2u8
    } else if k % 4 == 1 {
        ((b0 & 3u8) << 4u8) | (b1 >> 4u8)
    } else if k % 4 == 2 {
        ((b1 & 15u8) << 2u8) | (b2 >> 6u8)
    } else {
        b2 & 63u8
    }
}

/// The base64url text of sixteen bytes, without padding.
pub open spec fn slug_text(b: Seq<u8>) -> Seq<char> {
    Seq::new(22, |k: int| symbol(sextet(b, k) as int))
}

/// The byte `j` that four 6-bit groups per three bytes decode to.
pub open spec fn decoded_byte(v: Seq<u8>, j: int) -> u8 {
    let q = j / 3;
    let v0 = v[4 * q];
    let v1 = v[4 * q + 1];
    if j % 3 == 0 {
        (v0 << 2u8) | (v1 >> 4u8)
    } else if j % 3 == 1 {
        let v2 = v[4 * q + 2];
        ((v1 & 15u8) << 4u8) | (v2 >> 2u8)
    } else {
        let v2 = v[4 * q + 2];
        let v3 = v[4 * q + 3];
        ((v2 & 3u8) << 6u8) | v3
    }
}

/// Whether every character of `cs` is in the base64url alphabet.
pub open spec fn all_symbols(cs: Seq<char>) -> bool {
    forall|i: int| 0 <= i < cs.len() ==> (#[trigger] symbol_value(cs[i])) is Some
}

/// The first character of `cs` outside the alphabet, if any.
pub open spec fn first_non_symbol(cs: Seq<char>) -> Option<char>
    decreases cs.len(),
{
    if cs.len() == 0 {
        None
    } else if symbol_value(cs[0]) is None {
        Some(cs[0])
    } else {
        first_non_symbol(cs.drop_first())
    }
}

/// The 6-bit values of an all-alphabet character sequence.
pub open spec fn symbol_values(cs: Seq<char>) -> Seq<u8> {
    Seq::new(cs.len(), |i: int| symbol_value(cs[i])->0 as u8)
}

/// The sixteen bytes that a 22-character base64url text decodes to. The low
/// four bits of the last character carry no data and are ignored.
pub open spec fn slug_bytes(cs: Seq<char>) -> Seq<u8> {
    Seq::new(16, |j: int| decoded_byte(symbol_values(cs), j))
}

/// What `Slug::parse` makes of a string, given its characters and its
/// length in bytes.
pub open spec fn parse_slug(cs: Seq<char>, byte_len: nat) -> Result<Seq<u8>, SlugError> {
    if byte_len != 22 {
        Err(SlugError::WrongLength(byte_len as usize))
    } else {
        match first_non_symbol(cs) {
            Some(c) => Err(SlugError::BadCharacter(c)),
            None => Ok(slug_bytes(cs)),
        }
    }
}

proof fn lemma_first_non_symbol(cs: Seq<char>)
    ensures
        first_non_symbol(cs) is None <==> all_symbols(cs),
    decreases cs.len(),
{
    if cs.len() > 0 {
        lemma_first_non_symbol(cs.drop_first());
        if symbol_value(cs[0]) is Some && all_symbols(cs.drop_first()) {
            assert forall|i: int| 0 <= i < cs.len() implies (#[trigger] symbol_value(
                cs[i],
            )) is Some by {
                if i > 0 {
                    assert(cs[i] == cs.drop_first()[i - 1]);
                }
            }
        }
        if all_symbols(cs) {
            assert forall|i: int| 0 <= i < cs.drop_first().len() implies (#[trigger] symbol_value(
                cs.drop_first()[i],
            )) is Some by {
                assert(cs.drop_first()[i] == cs[i + 1]);
            }
        }
    }
}

proof fn lemma_first_non_symbol_at(cs: Seq<char>, i: int)
    requires
        0 <= i < cs.len(),
        forall|j: int| 0 <= j < i ==> (#[trigger] symbol_value(cs[j])) is Some,
        symbol_value(cs[i]) is None,
    ensures
        first_non_symbol(cs) == Some(cs[i]),
    decreases i,
{
    if i > 0 {
        let rest = cs.drop_first();
        assert forall|j: int| 0 <= j < i - 1 implies (#[trigger] symbol_value(rest[j])) is Some by {
            assert(rest[j] == cs[j + 1]);
        }
        lemma_first_non_symbol_at(rest, i - 1);
    }
}

proof fn lemma_symbol_round_trip(v: int)
    requires
        0 <= v < 64,
    ensures
        symbol_value(symbol(v)) == Some(v),
        (symbol(v) as int) < 128,
{
}

proof fn lemma_sextet_bound(b: Seq<u8>, k: int)
    ensures
        sextet(b, k) < 64,
{
    let q = k / 4;
    let b0 = byte_or_zero(b, 3 * q);
    let b1 = byte_or_zero(b, 3 * q + 1);
    let b2 = byte_or_zero(b, 3 * q + 2);
    assert(b0 >> 2u8 < 64) by (bit_vector);
    assert(((b0 & 3u8) << 4u8) | (b1 >> 4u8) < 64) by (bit_vector);
    assert(((b1 & 15u8) << 2u8) | (b2 >> 6u8) < 64) by (bit_vector);
    assert(b2 & 63u8 < 64) by (bit_vector);
}

/// The bit identities behind decoding: splitting three bytes into four
/// groups and joining them again gives the bytes back.
proof fn lemma_regroup(b0: u8, b1: u8, b2: u8)
    ensures
        ((b0 >> 2u8) << 2u8) | ((((b0 & 3u8) << 4u8) | (b1 >> 4u8)) >> 4u8) == b0,
        (((((b0 & 3u8) << 4u8) | (b1 >> 4u8)) & 15u8) << 4u8) | ((((b1 & 15u8) << 2u8) | (b2
            >> 6u8)) >> 2u8) == b1,
        (((((b1 & 15u8) << 2u8) | (b2 >> 6u8)) & 3u8) << 6u8) | (b2 & 63u8) == b2,
{
    assert(((b0 >> 2u8) << 2u8) | ((((b0 & 3u8) << 4u8) | (b1 >> 4u8)) >> 4u8) == b0)
        by (bit_vector);
    assert((((((b0 & 3u8) << 4u8) | (b1 >> 4u8)) & 15u8) << 4u8) | ((((b1 & 15u8) << 2u8) | (b2
        >> 6u8)) >> 2u8) == b1) by (bit_vector);
    assert((((((b1 & 15u8) << 2u8) | (b2 >> 6u8)) & 3u8) << 6u8) | (b2 & 63u8) == b2)
        by (bit_vector);
}

/// Decoding the text of a slug gives back its bytes: `parse` undoes
/// `encode`.
pub proof fn lemma_slug_round_trip(b: Seq<u8>)
    requires
        b.len() == 16,
    ensures
        all_symbols(slug_text(b)),
        first_non_symbol(slug_text(b)) is None,
        slug_bytes(slug_text(b)) == b,
        encode_utf8(slug_text(b)).len() == 22,
        parse_slug(slug_text(b), 22) == Ok::<Seq<u8>, SlugError>(b),
{
    let t = slug_text(b);
    assert forall|k: int| 0 <= k < 22 implies #[trigger] symbol_value(t[k]) == Some(
        sextet(b, k) as int,
    ) by {
        lemma_sextet_bound(b, k);
        lemma_symbol_round_trip(sextet(b, k) as int);
    }
    lemma_first_non_symbol(t);
    assert(is_ascii_chars(t));
    is_ascii_chars_encode_utf8(t);
    let v = symbol_values(t);
    assert forall|k: int| 0 <= k < 22 implies #[trigger] v[k] == sextet(b, k) by {}
    assert forall|j: int| 0 <= j < 16 implies #[trigger] decoded_byte(v, j) == b[j] by {
        let q = j / 3;
        let b0 = byte_or_zero(b, 3 * q);
        let b1 = byte_or_zero(b, 3 * q + 1);
        let b2 = byte_or_zero(b, 3 * q + 2);
        lemma_regroup(b0, b1, b2);
        assert(v[4 * q] == sextet(b, 4 * q));
        assert(v[4 * q + 1] == sextet(b, 4 * q + 1));
        if j % 3 != 0 {
            assert(v[4 * q + 2] == sextet(b, 4 * q + 2));
        }
        if j % 3 == 2 {
            assert(v[4 * q + 3] == sextet(b, 4 * q + 3));
        }
    }
    assert(slug_bytes(t) =~= b);
}

/// The base64url character for a 6-bit value.
fn symbol_for(v: u8) -> (c: char)
    requires
        v < 64,
    ensures
        c == symbol(v as int),
{
    if v < 26 {
        ((65u8 + v) as char)
    } else if v < 52 {
        ((97u8 + (v - 26)) as char)
    } else if v < 62 {
        ((48u8 + (v - 52)) as char)
    } else if v == 62 {
        '-'
    } else {
        '_'
    }
}

/// The 6-bit value of a character, if it is in the alphabet.
fn value_of(c: char) -> (r: Option<u8>)
    ensures
        r matches Some(v) ==> symbol_value(c) == Some(v as int),
        r is None ==> symbol_value(c) is None,
{
    let n = c as u32;
    if 65 <= n && n <= 90 {
        Some((n - 65) as u8)
    } else if 97 <= n && n <= 122 {
        Some((n - 97 + 26) as u8)
    } else if 48 <= n && n <= 57 {
        Some((n - 48 + 52) as u8)
    } else if c == '-' {
        Some(62)
    } else if c == '_' {
        Some(63)
    } else {
        None
    }
}

impl Slug {
    /// Build from caller-supplied random bytes.
    pub fn from_bytes(bytes: [u8; 16]) -> (r: Slug)
        ensures
            r == Slug(bytes),
    {
        Slug(bytes)
    }

    /// The sixteen bytes.
    pub fn as_bytes(&self) -> (r: &[u8; 16])
        ensures
            *r == self.0,
    {
        &self.0
    }

    /// base64url, no padding: sixteen bytes become 22 characters.
    pub fn encode(&self) -> (r: String)
        ensures
            r@ == slug_text(self@),
            r@.len() == 22,
    {
        let mut out = String::new();
        let mut k: usize = 0;
        while k < 22
            invariant
                k <= 22,
                out@ == slug_text(self@).take(k as int),
            decreases 22 - k,
        {
            let q = k / 4;
            let b0 = self.0[3 * q];
            let b1: u8 = if 3 * q + 1 < 16 { self.0[3 * q + 1] } else { 0 };
            let b2: u8 = if 3 * q + 2 < 16 { self.0[3 * q + 2] } else { 0 };
            let v: u8 = if k % 4 == 0 {
                b0 >> 2u8
            } else if k % 4 == 1 {
                ((b0 & 3u8) << 4u8) | (b1 >> 4u8)
            } else if k % 4 == 2 {
                ((b1 & 15u8) << 2u8) | (b2 >> 6u8)
            } else {
                b2 & 63u8
            };
            assert(v == sextet(self@, k as int));
            proof {
                lemma_sextet_bound(self@, k as int);
            }
            push_char(&mut out, symbol_for(v));
            assert(out@ =~= slug_text(self@).take(k + 1));
            k = k + 1;
        }
        assert(out@ =~= slug_text(self@));
        out
    }

    /// Read a slug back from its 22-character text. Fails with the length
    /// when the text is not 22 bytes, and with the first character outside
    /// the base64url alphabet otherwise.
    pub fn parse(s: &str) -> (r: Result<Slug, SlugError>)
        ensures
            match parse_slug(s@, s.spec_bytes().len()) {
                Ok(b) => r matches Ok(slug) && slug@ == b,
                Err(e) => r == Err::<Slug, SlugError>(e),
            },
    {
        let n = s.as_bytes().len();
        if n != 22 {
            return Err(SlugError::WrongLength(n));
        }
        let cs = chars_of(s);
        let mut vals: Vec<u8> = Vec::new();
        let mut i: usize = 0;
        while i < cs.len()
            invariant
                i <= cs@.len(),
                cs@ == s@,
                s.spec_bytes().len() == 22,
                vals@.len() == i,
                forall|j: int| 0 <= j < i ==> symbol_value(#[trigger] cs@[j]) == Some(vals@[j] as int),
                forall|j: int| 0 <= j < i ==> vals@[j] < 64,
            decreases cs@.len() - i,
        {
            match value_of(cs[i]) {
                Some(v) => {
                    vals.push(v);
                },
                None => {
                    proof {
                        lemma_first_non_symbol_at(cs@, i as int);
                    }
                    return Err(SlugError::BadCharacter(cs[i]));
                },
            }
            i = i + 1;
        }
        proof {
            assert(all_symbols(cs@));
            lemma_first_non_symbol(cs@);
            assert(is_ascii_chars(cs@));
            is_ascii_chars_encode_utf8(cs@);
            assert(vals@ =~= symbol_values(cs@));
        }
        let mut bytes: [u8; 16] = [0u8; 16];
        let mut j: usize = 0;
        while j < 16
            invariant
                j <= 16,
                vals@.len() == 22,
                vals@ == symbol_values(cs@),
                cs@ == s@,
                forall|m: int| 0 <= m < j ==> bytes@[m] == decoded_byte(vals@, m),
            decreases 16 - j,
        {
            let q = j / 3;
            let v0 = vals[4 * q];
            let v1 = vals[4 * q + 1];
            let b: u8 = if j % 3 == 0 {
                (v0 << 2u8) | (v1 >> 4u8)
            } else if j % 3 == 1 {
                let v2 = vals[4 * q + 2];
                ((v1 & 15u8) << 4u8) | (v2 >> 2u8)
            } else {
                let v2 = vals[4 * q + 2];
                let v3 = vals[4 * q + 3];
                ((v2 & 3u8) << 6u8) | v3
            };
            bytes[j] = b;
            j = j + 1;
        }
        let slug = Slug(bytes);
        assert(slug@ =~= slug_bytes(s@));
        Ok(slug)
    }
}

/// The debug form of a character, the way `<char as Debug>::fmt` writes
/// it.
pub uninterp spec fn char_debug(c: char) -> Seq<char>;

/// What [`SlugError::message`] says.
pub open spec fn slug_error_text(e: SlugError) -> Seq<char> {
    match e {
        SlugError::WrongLength(n) => "slug must be 22 characters, got "@ + decimal(n as nat),
        SlugError::BadCharacter(c) => "slug contains invalid character "@ + char_debug(c),
    }
}

/// `<char as Debug>::fmt`, through `format!("{c:?}")`: the character in
/// single quotes, escaped the way `char::escape_debug` escapes it except
/// that a double quote is left as it is. The result depends on the
/// character alone; what it is, is left to the name `char_debug`.
#[verifier::external_body]
fn debug_form(c: char) -> (r: String)
    ensures
        r@ == char_debug(c),
{
    format!("{c:?}")
}

impl SlugError {
    /// The error in words.
    pub fn message(&self) -> (r: String)
        ensures
            r@ == slug_error_text(*self),
    {
        let mut out = String::new();
        match self {
            SlugError::WrongLength(n) => {
                push_str(&mut out, "slug must be 22 characters, got ");
                push_decimal(&mut out, *n as u64);
            },
            SlugError::BadCharacter(c) => {
                push_str(&mut out, "slug contains invalid character ");
                let shown = debug_form(*c);
                push_str(&mut out, shown.as_str());
            },
        }
        out
    }
}

} // verus!
