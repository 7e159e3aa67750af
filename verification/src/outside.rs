//! The calls into other crates. Each function here makes one such call; its
//! contract says what is taken from the other crate without proof.
use vstd::prelude::*;
use vstd::utf8::encode_utf8;

use rand::Rng;
use sha2::Digest;

verus! {

/// The last second that `chrono` can represent: the end of the year 262142.
pub const LAST_SECOND: i64 = 8_210_266_876_799;

/// The last second of the year 9999.
pub const LAST_FOUR_DIGIT_SECOND: i64 = 253_402_300_799;

/// `chrono::Utc::now` and `DateTime::timestamp`: the seconds since the start of
/// 1970. `now` itself panics where the system clock stands before 1970 or past
/// what `chrono` represents, so a value that is returned lies in between. Which
/// value it is depends on the clock.
#[verifier::external_body]
pub(crate) fn unix_now() -> (r: i64)
    ensures
        0 <= r <= LAST_SECOND,
{
    chrono::Utc::now().timestamp()
}

/// The UTC date and time that lies `seconds` after the start of 1970, in the
/// form `2026-01-31T23:59:59Z`, as `chrono` writes it.
pub uninterp spec fn iso_text(seconds: int) -> Seq<char>;

/// `s` has the form of a date and time with a year of four digits.
pub open spec fn iso_shaped(s: Seq<char>) -> bool {
    &&& s.len() == 20
    &&& s[4] == '-' && s[7] == '-' && s[10] == 'T' && s[13] == ':' && s[16] == ':' && s[19] == 'Z'
    &&& forall|i: int|
        0 <= i < 19 && i != 4 && i != 7 && i != 10 && i != 13 && i != 16 ==> '0' <= #[trigger] s[i]
            <= '9'
}

/// `chrono::DateTime::from_timestamp`, then `format` with the pattern
/// `%Y-%m-%dT%H:%M:%SZ`. The text depends on the second alone; up to the year
/// 9999 the year has four digits, and every other field has two.
#[verifier::external_body]
pub(crate) fn format_iso(seconds: i64) -> (r: String)
    requires
        0 <= seconds <= LAST_SECOND,
    ensures
        r@ == iso_text(seconds as int),
        seconds <= LAST_FOUR_DIGIT_SECOND ==> iso_shaped(r@),
{
    chrono::DateTime::from_timestamp(seconds, 0).unwrap().format("%Y-%m-%dT%H:%M:%SZ").to_string()
}

/// A letter or a digit of ASCII.
pub open spec fn alphanumeric(c: char) -> bool {
    ||| 'A' <= c <= 'Z'
    ||| 'a' <= c <= 'z'
    ||| '0' <= c <= '9'
}

/// `rand::thread_rng` sampled with `rand::distributions::Alphanumeric`: one
/// letter or digit of ASCII. Which one is up to chance.
#[verifier::external_body]
pub(crate) fn random_alphanumeric() -> (r: u8)
    ensures
        alphanumeric(r as char),
{
    rand::thread_rng().sample(rand::distributions::Alphanumeric)
}

/// The SHA-256 digest of `data`.
pub uninterp spec fn sha256(data: Seq<u8>) -> Seq<u8>;

/// `sha2::Sha256::digest`: the digest of `data`, 32 bytes.
#[verifier::external_body]
pub(crate) fn sha256_digest(data: &[u8]) -> (r: Vec<u8>)
    ensures
        r@ == sha256(data@),
        r@.len() == 32,
{
    sha2::Sha256::digest(data).to_vec()
}

/// The hexadecimal digit for `n`, with lower-case letters.
pub open spec fn hex_digit(n: nat) -> char {
    if n < 10 {
        ('0' as nat + n) as char
    } else {
        ('a' as nat + (n - 10)) as char
    }
}

/// `data` in hexadecimal, two digits for each byte.
pub open spec fn hex_text(data: Seq<u8>) -> Seq<char> {
    Seq::new(
        2 * data.len(),
        |i: int|
            if i % 2 == 0 {
                hex_digit((data[i / 2] / 16) as nat)
            } else {
                hex_digit((data[i / 2] % 16) as nat)
            },
    )
}

/// `hex::encode`: two lower-case hexadecimal digits for each byte, the high
/// half first.
#[verifier::external_body]
pub(crate) fn hex_encode(data: &[u8]) -> (r: String)
    requires
        2 * data@.len() <= usize::MAX,
    ensures
        r@ == hex_text(data@),
{
    hex::encode(data)
}

/// A byte that a URL path may hold as it is: a letter or digit of ASCII, `-`,
/// `_`, `.` or `~`.
pub open spec fn unreserved(b: u8) -> bool {
    alphanumeric(b as char) || b == 45 || b == 95 || b == 46 || b == 126
}

/// The hexadecimal digit for `n`, with upper-case letters.
pub open spec fn upper_hex_digit(n: nat) -> char {
    if n < 10 {
        ('0' as nat + n) as char
    } else {
        ('A' as nat + (n - 10)) as char
    }
}

/// `bytes` with every byte that is not `unreserved` written as `%` and two
/// hexadecimal digits.
pub open spec fn percent_text(bytes: Seq<u8>) -> Seq<char>
    decreases bytes.len(),
{
    if bytes.len() == 0 {
        seq![]
    } else {
        let b = bytes[0];
        let head = if unreserved(b) {
            seq![b as char]
        } else {
            seq!['%', upper_hex_digit((b / 16) as nat), upper_hex_digit((b % 16) as nat)]
        };
        head + percent_text(bytes.skip(1))
    }
}

/// `urlencoding::encode`: the UTF-8 bytes of the text, percent-encoded but for
/// letters, digits, `-`, `_`, `.` and `~`.
#[verifier::external_body]
pub(crate) fn percent_encode(s: &str) -> (r: String)
    ensures
        r@ == percent_text(encode_utf8(s@)),
{
    urlencoding::encode(s).into_owned()
}

/// `s` may stand in a header: no control character but the tab.
pub open spec fn header_safe(s: Seq<char>) -> bool {
    forall|i: int|
        0 <= i < s.len() ==> (#[trigger] s[i] >= ' ' && s[i] != '\u{7f}') || s[i] == '\u{9}'
}

/// `axum::http::HeaderValue::from_str`: whether the text is accepted as the
/// value of a header. The bytes 32 to 255 without 127, and the tab, are.
#[verifier::external_body]
pub(crate) fn is_header_value(s: &str) -> (r: bool)
    ensures
        r == header_safe(s@),
{
    axum::http::HeaderValue::from_str(s).is_ok()
}

/// What `dotenvy` reads from a settings file: in order, the name and the value of
/// each assignment, and `None` for each place that cannot be read; blank lines and
/// comments give no entry. A `$` before a name stands for a variable of the
/// environment, or else for a setting further up in the file; without a name it
/// stands for nothing, since no variable has an empty name. `answers` holds what the
/// environment answered to the lookups of names, one after the other: the value of
/// the variable, or `None` where there is none that is text.
pub uninterp spec fn dotenv_lines(content: Seq<u8>, answers: Seq<Option<Seq<char>>>) -> Seq<
    Option<(Seq<char>, Seq<char>)>,
>;

/// `s` is a name that a settings file can assign to: a letter or `_`, then
/// letters, digits, `_` and `.`.
pub open spec fn setting_name(s: Seq<char>) -> bool {
    &&& s.len() > 0
    &&& (alphanumeric(s[0]) && !('0' <= s[0] <= '9')) || s[0] == '_'
    &&& forall|i: int|
        0 <= i < s.len() ==> alphanumeric(#[trigger] s[i]) || s[i] == '_' || s[i] == '.'
}

/// The two have entries at the same places, and these have the same names.
pub open spec fn same_names(
    a: Seq<Option<(Seq<char>, Seq<char>)>>,
    b: Seq<Option<(Seq<char>, Seq<char>)>>,
) -> bool {
    &&& a.len() == b.len()
    &&& forall|i: int|
        0 <= i < a.len() ==> match (#[trigger] a[i], #[trigger] b[i]) {
            (Some(x), Some(y)) => x.0 == y.0,
            (None, None) => true,
            _ => false,
        }
}

/// `dotenvy::from_read_iter` on bytes that are in memory, walked to its end. The
/// result depends on the content and on what the environment answers. Which places
/// can be read, and the names there, depend on the content alone; and so does
/// everything where the content holds no `$`. Every name has the form that `dotenvy`
/// accepts.
#[verifier::external_body]
pub(crate) fn read_dotenv(content: &[u8]) -> (r: Vec<Option<(String, String)>>)
    ensures
        exists|answers: Seq<Option<Seq<char>>>|
            r.deep_view() == #[trigger] dotenv_lines(content@, answers),
        forall|answers: Seq<Option<Seq<char>>>|
            same_names(r.deep_view(), #[trigger] dotenv_lines(content@, answers)),
        !content@.contains(36u8) ==> forall|answers: Seq<Option<Seq<char>>>|
            r.deep_view() == #[trigger] dotenv_lines(content@, answers),
        forall|i: int|
            0 <= i < r@.len() ==> (#[trigger] r@[i] matches Some(entry) ==> setting_name(
                entry.0@,
            )),
{
    dotenvy::from_read_iter(content).map(|item| item.ok()).collect()
}

} // verus!
