//! Times, tokens and checksums.
use vstd::prelude::*;

use crate::outside::{format_iso, hex_encode, random_alphanumeric, sha256_digest, unix_now};
use crate::outside::{alphanumeric, hex_text, iso_shaped, iso_text, sha256};
use crate::outside::{LAST_FOUR_DIGIT_SECOND, LAST_SECOND};

verus! {

/// How many characters a token has.
pub const TOKEN_LENGTH: usize = 48;

/// `s` is a token: letters and digits of ASCII, `TOKEN_LENGTH` of them.
pub open spec fn is_token(s: Seq<char>) -> bool {
    s.len() == TOKEN_LENGTH && forall|i: int|
        0 <= i < s.len() ==> alphanumeric(#[trigger] s[i])
}

/// `s` is the text of some moment.
pub open spec fn is_stamp(s: Seq<char>) -> bool {
    exists|t: int| 0 <= t <= LAST_SECOND && s == #[trigger] iso_text(t)
}

/// The checksum of `data`: its SHA-256 digest in hexadecimal.
pub open spec fn checksum(data: Seq<u8>) -> Seq<char> {
    hex_text(sha256(data))
}

/// The UTC date and time that lies `seconds` after the start of 1970.
pub fn iso_at(seconds: i64) -> (r: String)
    requires
        0 <= seconds <= LAST_SECOND,
    ensures
        r@ == iso_text(seconds as int),
        seconds <= LAST_FOUR_DIGIT_SECOND ==> iso_shaped(r@),
{
    format_iso(seconds)
}

/// The present UTC date and time.
pub fn now_iso() -> (r: String)
    ensures
        is_stamp(r@),
{
    let seconds = unix_now();
    iso_at(seconds)
}

/// A fresh random token.
pub fn create_token() -> (r: String)
    ensures
        is_token(r@),
{
    let mut out = String::new();
    let mut i: usize = 0;
    while i < TOKEN_LENGTH
        invariant
            i <= TOKEN_LENGTH,
            out@.len() == i,
            forall|j: int| 0 <= j < i ==> alphanumeric(#[trigger] out@[j]),
        decreases TOKEN_LENGTH - i,
    {
        let b = random_alphanumeric();
        out.push(b as char);
        i += 1;
    }
    out
}

/// The SHA-256 digest of `bytes` in hexadecimal.
pub fn sha256_hex(bytes: &[u8]) -> (r: String)
    ensures
        r@ == checksum(bytes@),
        r@.len() == 64,
{
    let digest = sha256_digest(bytes);
    hex_encode(digest.as_slice())
}

} // verus!
