//! What can be relied on about tokens and checksums.
use vstd::prelude::*;

use crate::outside::{hex_digit, hex_text, sha256};
use crate::stamp::{checksum, is_token};

verus! {

/// A token has 48 characters, each of them a letter or a digit of ASCII.
pub proof fn what_a_token_is(s: Seq<char>)
    ensures
        is_token(s) <==> s.len() == 48 && forall|i: int|
            0 <= i < s.len() ==> 'a' <= #[trigger] s[i] <= 'z' || 'A' <= s[i] <= 'Z' || '0' <= s[i]
                <= '9',
{
}

/// The value of a hexadecimal digit.
pub open spec fn digit_value(c: char) -> int {
    if '0' <= c <= '9' {
        c as int - '0' as int
    } else {
        c as int - 'a' as int + 10
    }
}

/// The checksum of some bytes is the digest of all of them in hexadecimal: each
/// byte of the digest as two digits, small letters among them.
pub proof fn checksum_is_the_digest(data: Seq<u8>, i: int)
    requires
        0 <= i < sha256(data).len(),
    ensures
        checksum(data).len() == 2 * sha256(data).len(),
        ({
            let high = checksum(data)[2 * i];
            let low = checksum(data)[2 * i + 1];
            &&& '0' <= high <= '9' || 'a' <= high <= 'f'
            &&& '0' <= low <= '9' || 'a' <= low <= 'f'
            &&& 16 * digit_value(high) + digit_value(low) == sha256(data)[i]
        }),
{
    let digest = sha256(data);
    assert((2 * i) % 2 == 0 && (2 * i) / 2 == i);
    assert((2 * i + 1) % 2 == 1 && (2 * i + 1) / 2 == i);
    assert(hex_text(digest)[2 * i] == hex_digit((digest[i] / 16) as nat));
    assert(hex_text(digest)[2 * i + 1] == hex_digit((digest[i] % 16) as nat));
}

} // verus!
