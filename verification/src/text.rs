//! Text: sequences of characters and the small grammar that requests and
//! settings are written in.
use vstd::prelude::*;
use vstd::string::*;

verus! {

broadcast use vstd::seq_lib::group_seq_properties;

/// `String::push` of the standard library: the character is appended at the end.
pub assume_specification[ String::push ](s: &mut String, c: char)
    ensures
        final(s)@ == old(s)@.push(c),
;

/// The characters with the Unicode property `White_Space`.
pub open spec fn white_space(c: char) -> bool {
    ||| '\u{9}' <= c <= '\u{d}'
    ||| c == ' '
    ||| c == '\u{85}'
    ||| c == '\u{a0}'
    ||| c == '\u{1680}'
    ||| '\u{2000}' <= c <= '\u{200a}'
    ||| c == '\u{2028}'
    ||| c == '\u{2029}'
    ||| c == '\u{202f}'
    ||| c == '\u{205f}'
    ||| c == '\u{3000}'
}

/// `s` without the white space at its two ends.
pub open spec fn trimmed(s: Seq<char>) -> Seq<char>
    decreases s.len(),
{
    if s.len() == 0 {
        s
    } else if white_space(s[0]) {
        trimmed(s.skip(1))
    } else if white_space(s.last()) {
        trimmed(s.drop_last())
    } else {
        s
    }
}

/// `s` begins with `prefix`.
pub open spec fn has_prefix(s: Seq<char>, prefix: Seq<char>) -> bool {
    prefix.len() <= s.len() && s.take(prefix.len() as int) == prefix
}

/// What follows `prefix` at the start of `s`, if `s` begins with it.
pub open spec fn after_prefix(s: Seq<char>, prefix: Seq<char>) -> Option<Seq<char>> {
    if has_prefix(s, prefix) {
        Some(s.skip(prefix.len() as int))
    } else {
        None
    }
}

/// The index of the first `c` in `s`, or the length of `s` where there is none.
pub open spec fn first_index(s: Seq<char>, c: char) -> int
    decreases s.len(),
{
    if s.len() == 0 || s[0] == c {
        0
    } else {
        1 + first_index(s.skip(1), c)
    }
}

/// The two sides of the first `c` in `s`, if there is one.
pub open spec fn split_first(s: Seq<char>, c: char) -> Option<(Seq<char>, Seq<char>)> {
    if s.contains(c) {
        Some((s.take(first_index(s, c)), s.skip(first_index(s, c) + 1)))
    } else {
        None
    }
}

/// The pieces of `s` between the separators `c`, in order.
pub open spec fn pieces(s: Seq<char>, c: char) -> Seq<Seq<char>>
    decreases s.len(),
{
    let i = first_index(s, c);
    if i < 0 || i >= s.len() {
        seq![s]
    } else {
        seq![s.take(i)] + pieces(s.skip(i + 1), c)
    }
}

pub open spec fn is_digit(c: char) -> bool {
    '0' <= c <= '9'
}

/// The number that a row of decimal digits writes.
pub open spec fn digits_value(s: Seq<char>) -> nat
    decreases s.len(),
{
    if s.len() == 0 {
        0
    } else {
        10 * digits_value(s.drop_last()) + ((s.last() as nat - '0' as nat) as nat)
    }
}

/// `s` is a number without a sign: one digit or more, and nothing else.
pub open spec fn is_number(s: Seq<char>) -> bool {
    s.len() > 0 && forall|i: int| 0 <= i < s.len() ==> is_digit(#[trigger] s[i])
}

/// The integer that `s` writes: digits, with a `+` before them or not and,
/// where negative numbers are read too, a `-`. `None` where `s` is anything
/// else or the number lies outside `lo..=hi`.
pub open spec fn parsed_integer(s: Seq<char>, signed: bool, lo: int, hi: int) -> Option<int> {
    let plus = s.len() > 0 && s[0] == '+';
    let minus = signed && s.len() > 0 && s[0] == '-';
    let digits = if plus || minus {
        s.skip(1)
    } else {
        s
    };
    let value = if minus {
        -(digits_value(digits) as int)
    } else {
        digits_value(digits) as int
    };
    if is_number(digits) && lo <= value <= hi {
        Some(value)
    } else {
        None
    }
}

pub open spec fn parsed_u64(s: Seq<char>) -> Option<int> {
    parsed_integer(s, false, 0, u64::MAX as int)
}

pub open spec fn parsed_u16(s: Seq<char>) -> Option<int> {
    parsed_integer(s, false, 0, u16::MAX as int)
}

pub open spec fn parsed_i64(s: Seq<char>) -> Option<int> {
    parsed_integer(s, true, i64::MIN as int, i64::MAX as int)
}

/// The decimal digit for `n`.
pub open spec fn digit_char(n: nat) -> char {
    ('0' as nat + n) as char
}

/// `n` in decimal, without leading zeros.
pub open spec fn decimal(n: nat) -> Seq<char>
    decreases n,
{
    if n < 10 {
        seq![digit_char(n)]
    } else {
        decimal(n / 10).push(digit_char(n % 10))
    }
}

/// `n` in decimal, with a `-` where it is negative.
pub open spec fn decimal_int(n: int) -> Seq<char> {
    if n < 0 {
        seq!['-'] + decimal((-n) as nat)
    } else {
        decimal(n as nat)
    }
}

/// ASCII lower case of one character.
pub open spec fn ascii_lower(c: char) -> char {
    if 'A' <= c <= 'Z' {
        (c as u32 + 32) as char
    } else {
        c
    }
}

/// `a` and `b` differ at most in the case of ASCII letters.
pub open spec fn same_ignoring_ascii_case(a: Seq<char>, b: Seq<char>) -> bool {
    a.len() == b.len() && forall|i: int|
        0 <= i < a.len() ==> ascii_lower(#[trigger] a[i]) == ascii_lower(b[i])
}

/// The characters of `s`.
pub fn chars_of(s: &str) -> (r: Vec<char>)
    ensures
        r@ == s@,
{
    let mut out: Vec<char> = Vec::new();
    for c in it: s.chars()
        invariant
            out@ == it.seq().take(it.index()),
            it.seq() == s@,
    {
        out.push(c);
    }
    out
}

/// The text of the characters `from..to`.
pub fn string_of(chars: &Vec<char>, from: usize, to: usize) -> (r: String)
    requires
        from <= to <= chars@.len(),
    ensures
        r@ == chars@.subrange(from as int, to as int),
{
    let mut out: String = String::new();
    let mut i: usize = from;
    while i < to
        invariant
            from <= i <= to <= chars@.len(),
            out@ == chars@.subrange(from as int, i as int),
        decreases to - i,
    {
        out.push(chars[i]);
        i += 1;
    }
    out
}


pub fn is_white_space(c: char) -> (r: bool)
    ensures
        r == white_space(c),
{
    ('\u{9}' <= c && c <= '\u{d}') || c == ' ' || c == '\u{85}' || c == '\u{a0}' || c == '\u{1680}'
        || ('\u{2000}' <= c && c <= '\u{200a}') || c == '\u{2028}' || c == '\u{2029}' || c
        == '\u{202f}' || c == '\u{205f}' || c == '\u{3000}'
}

/// `s` without the white space at its two ends.
pub fn trim(s: &str) -> (r: String)
    ensures
        r@ == trimmed(s@),
{
    let chars = chars_of(s);
    let mut from: usize = 0;
    let mut to: usize = chars.len();
    proof {
        assert(s@.subrange(0, s@.len() as int) =~= s@);
    }
    while from < to && is_white_space(chars[from])
        invariant
            chars@ == s@,
            from <= to == chars@.len(),
            trimmed(chars@.subrange(from as int, to as int)) == trimmed(s@),
        decreases to - from,
    {
        proof {
            let rest = chars@.subrange(from as int, to as int);
            assert(rest.skip(1) =~= chars@.subrange(from + 1, to as int));
        }
        from += 1;
    }
    while from < to && is_white_space(chars[to - 1])
        invariant
            chars@ == s@,
            from <= to <= chars@.len(),
            from < to ==> !white_space(chars@[from as int]),
            trimmed(chars@.subrange(from as int, to as int)) == trimmed(s@),
        decreases to - from,
    {
        proof {
            let rest = chars@.subrange(from as int, to as int);
            assert(rest.drop_last() =~= chars@.subrange(from as int, to - 1));
        }
        to -= 1;
    }
    string_of(&chars, from, to)
}

/// Whether the two texts are the same.
pub fn same_text(a: &str, b: &str) -> (r: bool)
    ensures
        r == (a@ == b@),
{
    let x = chars_of(a);
    let y = chars_of(b);
    if x.len() != y.len() {
        return false;
    }
    let mut i: usize = 0;
    while i < x.len()
        invariant
            x@ == a@,
            y@ == b@,
            x@.len() == y@.len(),
            i <= x@.len(),
            forall|j: int| 0 <= j < i ==> x@[j] == y@[j],
        decreases x.len() - i,
    {
        if x[i] != y[i] {
            return false;
        }
        i += 1;
    }
    assert(a@ =~= b@);
    true
}

pub fn to_ascii_lower(c: char) -> (r: char)
    ensures
        r == ascii_lower(c),
{
    if 'A' <= c && c <= 'Z' {
        ((c as u8) + 32) as char
    } else {
        c
    }
}

/// Whether the two texts differ at most in the case of ASCII letters.
pub fn same_text_ignoring_ascii_case(a: &str, b: &str) -> (r: bool)
    ensures
        r == same_ignoring_ascii_case(a@, b@),
{
    let x = chars_of(a);
    let y = chars_of(b);
    if x.len() != y.len() {
        return false;
    }
    let mut i: usize = 0;
    while i < x.len()
        invariant
            x@ == a@,
            y@ == b@,
            x@.len() == y@.len(),
            i <= x@.len(),
            forall|j: int| 0 <= j < i ==> ascii_lower(#[trigger] x@[j]) == ascii_lower(y@[j]),
        decreases x.len() - i,
    {
        if to_ascii_lower(x[i]) != to_ascii_lower(y[i]) {
            return false;
        }
        i += 1;
    }
    true
}

/// What follows `prefix` at the start of `s`, if `s` begins with it.
pub fn strip_prefix(s: &str, prefix: &str) -> (r: Option<String>)
    ensures
        r.deep_view() == after_prefix(s@, prefix@),
{
    let x = chars_of(s);
    let p = chars_of(prefix);
    if p.len() > x.len() {
        return None;
    }
    let mut i: usize = 0;
    while i < p.len()
        invariant
            x@ == s@,
            p@ == prefix@,
            i <= p@.len() <= x@.len(),
            forall|j: int| 0 <= j < i ==> x@[j] == p@[j],
        decreases p.len() - i,
    {
        if x[i] != p[i] {
            assert(s@.take(p@.len() as int)[i as int] != p@[i as int]);
            return None;
        }
        i += 1;
    }
    assert(s@.take(p@.len() as int) =~= p@);
    assert(s@.skip(p@.len() as int) =~= x@.subrange(p@.len() as int, x@.len() as int));
    Some(string_of(&x, p.len(), x.len()))
}

proof fn first_index_from(s: Seq<char>, c: char, i: int)
    requires
        0 <= i <= s.len(),
        forall|j: int| 0 <= j < i ==> s[j] != c,
        i < s.len() ==> s[i] == c,
    ensures
        first_index(s, c) == i,
    decreases s.len(),
{
    if i > 0 {
        first_index_from(s.skip(1), c, i - 1);
    }
}

/// `first_index` is the least index that holds `c`, or the length.
pub proof fn first_index_is_first(s: Seq<char>, c: char)
    ensures
        0 <= first_index(s, c) <= s.len(),
        forall|j: int| 0 <= j < first_index(s, c) ==> s[j] != c,
        first_index(s, c) < s.len() ==> s[first_index(s, c)] == c,
        s.contains(c) <==> first_index(s, c) < s.len(),
    decreases s.len(),
{
    if s.len() > 0 && s[0] != c {
        let rest = s.skip(1);
        first_index_is_first(rest, c);
        assert forall|j: int| 0 <= j < first_index(s, c) implies s[j] != c by {
            if j > 0 {
                assert(s[j] == rest[j - 1]);
            }
        }
        if s.contains(c) {
            let k = choose|k: int| 0 <= k < s.len() && s[k] == c;
            assert(rest[k - 1] == c);
        }
    }
}

/// The first index of `c` at or after `from`, or the number of characters.
pub fn find_char(chars: &Vec<char>, from: usize, c: char) -> (r: usize)
    requires
        from <= chars@.len(),
    ensures
        from <= r <= chars@.len(),
        r == from + first_index(chars@.skip(from as int), c),
{
    let mut i: usize = from;
    while i < chars.len() && chars[i] != c
        invariant
            from <= i <= chars@.len(),
            forall|j: int| from <= j < i ==> chars@[j] != c,
        decreases chars.len() - i,
    {
        i += 1;
    }
    proof {
        let rest = chars@.skip(from as int);
        assert forall|j: int| 0 <= j < i - from implies rest[j] != c by {
            assert(rest[j] == chars@[from + j]);
        }
        first_index_from(rest, c, i - from);
    }
    i
}

/// The two sides of the first `c` in `s`, if there is one.
pub fn split_once(s: &str, c: char) -> (r: Option<(String, String)>)
    ensures
        r matches Some(sides) ==> split_first(s@, c) == Some((sides.0@, sides.1@)),
        r is None ==> split_first(s@, c) is None,
{
    let chars = chars_of(s);
    let i = find_char(&chars, 0, c);
    proof {
        first_index_is_first(s@, c);
        assert(s@.skip(0) =~= s@);
    }
    if i < chars.len() {
        assert(s@.take(i as int) =~= s@.subrange(0, i as int));
        assert(s@.skip(i + 1) =~= s@.subrange(i + 1, s@.len() as int));
        Some((string_of(&chars, 0, i), string_of(&chars, i + 1, chars.len())))
    } else {
        None
    }
}

/// Whether `c` occurs in `s`.
pub fn has_char(s: &str, c: char) -> (r: bool)
    ensures
        r == s@.contains(c),
{
    let chars = chars_of(s);
    let i = find_char(&chars, 0, c);
    proof {
        first_index_is_first(s@, c);
        assert(s@.skip(0) =~= s@);
    }
    i < chars.len()
}

/// `s` without the characters `c`.
pub open spec fn without_char(s: Seq<char>, c: char) -> Seq<char> {
    s.filter(|x: char| x != c)
}

/// `s` without the characters `c`.
pub fn remove_char(s: &str, c: char) -> (r: String)
    ensures
        r@ == without_char(s@, c),
{
    let chars = chars_of(s);
    let mut out: String = String::new();
    let mut i: usize = 0;
    while i < chars.len()
        invariant
            chars@ == s@,
            i <= chars@.len(),
            out@ == without_char(chars@.take(i as int), c),
        decreases chars.len() - i,
    {
        proof {
            let next = chars@.take(i + 1);
            assert(next.drop_last() =~= chars@.take(i as int));
            assert(next.last() == chars@[i as int]);
            reveal(Seq::filter);
        }
        if chars[i] != c {
            out.push(chars[i]);
        }
        i += 1;
    }
    assert(s@.take(s@.len() as int) =~= s@);
    out
}


proof fn digits_value_of_prefix(s: Seq<char>, k: int)
    requires
        0 <= k <= s.len(),
    ensures
        digits_value(s.take(k)) <= digits_value(s),
    decreases s.len() - k,
{
    if k < s.len() {
        digits_value_of_prefix(s, k + 1);
        assert(s.take(k + 1).drop_last() =~= s.take(k));
    } else {
        assert(s.take(k) =~= s);
    }
}

/// The number that the characters from `from` on write, if they are digits and
/// it is at most `limit`.
fn parse_digits(chars: &Vec<char>, from: usize, limit: u64) -> (r: Option<u64>)
    requires
        from <= chars@.len(),
    ensures
        r matches Some(v) ==> is_number(chars@.skip(from as int)) && v == digits_value(
            chars@.skip(from as int),
        ) && v <= limit,
        r is None ==> !is_number(chars@.skip(from as int)) || digits_value(
            chars@.skip(from as int),
        ) > limit,
{
    let ghost digits = chars@.skip(from as int);
    if from >= chars.len() {
        return None;
    }
    let mut value: u64 = 0;
    let mut i: usize = from;
    while i < chars.len()
        invariant
            from <= i <= chars@.len(),
            digits == chars@.skip(from as int),
            value == digits_value(digits.take(i - from)),
            value <= limit,
            forall|j: int| 0 <= j < i - from ==> is_digit(#[trigger] digits[j]),
        decreases chars.len() - i,
    {
        let c = chars[i];
        assert(digits[i - from] == c);
        if !('0' <= c && c <= '9') {
            return None;
        }
        let next: u128 = 10 * (value as u128) + ((c as u128) - 48);
        proof {
            assert(digits.take(i - from + 1).drop_last() =~= digits.take(i - from));
            digits_value_of_prefix(digits, i - from + 1);
        }
        if next > limit as u128 {
            return None;
        }
        value = next as u64;
        i += 1;
    }
    assert(digits.take(digits.len() as int) =~= digits);
    Some(value)
}


/// The number that `s` writes, where it is at most `limit`.
fn parse_unsigned(s: &str, limit: u64) -> (r: Option<u64>)
    ensures
        r matches Some(v) ==> parsed_integer(s@, false, 0, limit as int) == Some(v as int),
        r is None ==> parsed_integer(s@, false, 0, limit as int) is None,
{
    let chars = chars_of(s);
    assert(s@.skip(0) =~= s@);
    if chars.len() > 0 && chars[0] == '+' {
        parse_digits(&chars, 1, limit)
    } else {
        parse_digits(&chars, 0, limit)
    }
}

pub fn parse_u64(s: &str) -> (r: Option<u64>)
    ensures
        r matches Some(v) ==> parsed_u64(s@) == Some(v as int),
        r is None ==> parsed_u64(s@) is None,
{
    parse_unsigned(s, u64::MAX)
}

pub fn parse_u16(s: &str) -> (r: Option<u16>)
    ensures
        r matches Some(v) ==> parsed_u16(s@) == Some(v as int),
        r is None ==> parsed_u16(s@) is None,
{
    match parse_unsigned(s, 65535) {
        Some(v) => Some(v as u16),
        None => None,
    }
}

pub fn parse_i64(s: &str) -> (r: Option<i64>)
    ensures
        r matches Some(v) ==> parsed_i64(s@) == Some(v as int),
        r is None ==> parsed_i64(s@) is None,
{
    let chars = chars_of(s);
    assert(s@.skip(0) =~= s@);
    if chars.len() > 0 && chars[0] == '-' {
        match parse_digits(&chars, 1, 0x8000_0000_0000_0000) {
            Some(v) => Some((-(v as i128)) as i64),
            None => None,
        }
    } else {
        let from: usize = if chars.len() > 0 && chars[0] == '+' {
            1
        } else {
            0
        };
        match parse_digits(&chars, from, 0x7fff_ffff_ffff_ffff) {
            Some(v) => Some(v as i64),
            None => None,
        }
    }
}

/// Appends `n` in decimal.
pub fn push_u64(out: &mut String, n: u64)
    ensures
        final(out)@ == old(out)@ + decimal(n as nat),
    decreases n,
{
    if n >= 10 {
        push_u64(out, n / 10);
    }
    let d: u8 = (n % 10) as u8;
    out.push((48 + d) as char);
    assert(out@ =~= old(out)@ + decimal(n as nat));
}

/// Appends `n` in decimal, with a `-` where it is negative.
pub fn push_i64(out: &mut String, n: i64)
    ensures
        final(out)@ == old(out)@ + decimal_int(n as int),
{
    if n < 0 {
        out.push('-');
        push_u64(out, (-(n as i128)) as u64);
        assert(out@ =~= old(out)@ + decimal_int(n as int));
    } else {
        push_u64(out, n as u64);
    }
}

/// `n` in decimal.
pub fn i64_text(n: i64) -> (r: String)
    ensures
        r@ == decimal_int(n as int),
{
    let mut out = String::new();
    push_i64(&mut out, n);
    assert(Seq::<char>::empty() + decimal_int(n as int) =~= decimal_int(n as int));
    out
}

/// `n` in decimal.
pub fn u64_text(n: u64) -> (r: String)
    ensures
        r@ == decimal(n as nat),
{
    let mut out = String::new();
    push_u64(&mut out, n);
    assert(Seq::<char>::empty() + decimal(n as nat) =~= decimal(n as nat));
    out
}

/// Decimal text is a row of digits that writes the number it was made from.
pub proof fn decimal_writes(n: nat)
    ensures
        is_number(decimal(n)),
        digits_value(decimal(n)) == n,
    decreases n,
{
    if n < 10 {
        let s = seq![digit_char(n)];
        assert(s.drop_last() =~= Seq::<char>::empty());
        assert(digits_value(s.drop_last()) == 0);
    } else {
        decimal_writes(n / 10);
        let head = decimal(n / 10);
        let s = head.push(digit_char(n % 10));
        assert(s.drop_last() =~= head);
        assert forall|i: int| 0 <= i < s.len() implies is_digit(#[trigger] s[i]) by {
            if i < head.len() {
                assert(s[i] == head[i]);
            }
        }
    }
}

/// Reading back the decimal text of an `i64` gives the `i64`.
pub proof fn decimal_text_reads_back(n: i64)
    ensures
        parsed_i64(decimal_int(n as int)) == Some(n as int),
{
    let m = if n < 0 {
        (-n) as nat
    } else {
        n as nat
    };
    decimal_writes(m);
    let s = decimal_int(n as int);
    if n < 0 {
        assert(s.skip(1) =~= decimal(m));
    } else {
        assert(is_digit(decimal(m)[0]));
    }
}

/// `a` followed by `b`.
pub fn concat(a: &str, b: &str) -> (r: String)
    ensures
        r@ == a@ + b@,
{
    let mut out: String = a.to_owned();
    out.append(b);
    out
}

} // verus!
