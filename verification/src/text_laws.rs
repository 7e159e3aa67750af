//! What can be relied on about text: how it is cut, trimmed and read as numbers.
use vstd::prelude::*;

use crate::text::{after_prefix, decimal, decimal_int, decimal_writes, digit_char, digits_value};
use crate::text::{first_index, first_index_is_first, has_prefix, is_digit, is_number};
use crate::text::{parsed_i64, parsed_integer, parsed_u16, parsed_u64, pieces};
use crate::text::{same_ignoring_ascii_case, split_first, trimmed, white_space, without_char};

verus! {

/// Every character of `s` is white space.
pub open spec fn blank(s: Seq<char>) -> bool {
    forall|i: int| 0 <= i < s.len() ==> white_space(#[trigger] s[i])
}

/// `s` begins and ends with characters that are no white space, or is empty.
pub open spec fn bare(s: Seq<char>) -> bool {
    s.len() > 0 ==> !white_space(s[0]) && !white_space(s.last())
}

/// White space are the tab to the carriage return, the space, the next line, the
/// no-break space and the spaces and separators of Unicode, by their numbers.
pub proof fn white_space_characters(c: char)
    ensures
        white_space(c) <==> {
            let n = c as u32;
            ||| 9 <= n <= 13
            ||| n == 32
            ||| n == 133
            ||| n == 160
            ||| n == 5760
            ||| 8192 <= n <= 8202
            ||| n == 8232
            ||| n == 8233
            ||| n == 8239
            ||| n == 8287
            ||| n == 12288
        },
{
}

/// All that lies before `i` and from `j` on is white space.
pub open spec fn within_blanks(s: Seq<char>, i: int, j: int) -> bool {
    &&& 0 <= i <= j <= s.len()
    &&& forall|k: int| 0 <= k < i ==> white_space(#[trigger] s[k])
    &&& forall|k: int| j <= k < s.len() ==> white_space(#[trigger] s[k])
}

proof fn cut_of_the_rest(s: Seq<char>, i: int, j: int)
    requires
        s.len() > 0,
    ensures
        white_space(s[0]) && within_blanks(s.skip(1), i, j) ==> within_blanks(s, i + 1, j + 1)
            && s.subrange(i + 1, j + 1) == s.skip(1).subrange(i, j),
        white_space(s.last()) && within_blanks(s.drop_last(), i, j) ==> within_blanks(s, i, j)
            && s.subrange(i, j) == s.drop_last().subrange(i, j),
{
    let (tail, head) = (s.skip(1), s.drop_last());
    if white_space(s[0]) && within_blanks(tail, i, j) {
        assert forall|k: int| 0 <= k < i + 1 implies white_space(#[trigger] s[k]) by {
            if k > 0 {
                assert(s[k] == tail[k - 1]);
            }
        }
        assert forall|k: int| j + 1 <= k < s.len() implies white_space(#[trigger] s[k]) by {
            assert(s[k] == tail[k - 1]);
        }
        assert(s.subrange(i + 1, j + 1) =~= tail.subrange(i, j));
    }
    if white_space(s.last()) && within_blanks(head, i, j) {
        assert forall|k: int| 0 <= k < i implies white_space(#[trigger] s[k]) by {
            assert(s[k] == head[k]);
        }
        assert forall|k: int| j <= k < s.len() implies white_space(#[trigger] s[k]) by {
            if k < head.len() {
                assert(s[k] == head[k]);
            }
        }
        assert(s.subrange(i, j) =~= head.subrange(i, j));
    }
}

proof fn what_trimming_leaves(s: Seq<char>) -> (cut: (int, int))
    ensures
        within_blanks(s, cut.0, cut.1),
        trimmed(s) == s.subrange(cut.0, cut.1),
        bare(trimmed(s)),
    decreases s.len(),
{
    if s.len() == 0 {
        assert(s.subrange(0, 0) =~= s);
        (0, 0)
    } else if white_space(s[0]) {
        let (i, j) = what_trimming_leaves(s.skip(1));
        cut_of_the_rest(s, i, j);
        (i + 1, j + 1)
    } else if white_space(s.last()) {
        let (i, j) = what_trimming_leaves(s.drop_last());
        cut_of_the_rest(s, i, j);
        (i, j)
    } else {
        assert(s.subrange(0, s.len() as int) =~= s);
        (0, s.len() as int)
    }
}

/// Trimming takes away white space at the two ends, all of it and nothing else.
pub proof fn trimming_takes_the_ends_away(s: Seq<char>)
    ensures
        exists|i: int, j: int|
            #[trigger] within_blanks(s, i, j) && trimmed(s) == s.subrange(i, j),
        bare(trimmed(s)),
        trimmed(s).len() == 0 <==> blank(s),
{
    let (i, j) = what_trimming_leaves(s);
    let t = s.subrange(i, j);
    assert(t == trimmed(s));
    if i < j {
        assert(t[0] == s[i]);
        assert(!white_space(s[i]));
    } else {
        assert forall|k: int| 0 <= k < s.len() implies white_space(#[trigger] s[k]) by {}
    }
}

/// White space around a text is trimmed away, and the text is left as it is.
pub proof fn padding_is_trimmed_away(before: Seq<char>, text: Seq<char>, after: Seq<char>)
    requires
        blank(before),
        blank(after),
        bare(text),
    ensures
        trimmed(before + text + after) == text,
    decreases before.len() + after.len(),
{
    let s = before + text + after;
    if before.len() > 0 {
        assert(s[0] == before[0]);
        assert(s.skip(1) =~= before.skip(1) + text + after);
        assert forall|i: int| 0 <= i < before.len() - 1 implies white_space(
            #[trigger] before.skip(1)[i],
        ) by {
            assert(before.skip(1)[i] == before[i + 1]);
        }
        padding_is_trimmed_away(before.skip(1), text, after);
    } else if after.len() > 0 {
        if text.len() > 0 {
            assert(s[0] == text[0]);
            assert(s.last() == after.last());
            assert(white_space(after[after.len() - 1]));
            assert(s.drop_last() =~= before + text + after.drop_last());
            assert forall|i: int| 0 <= i < after.len() - 1 implies white_space(
                #[trigger] after.drop_last()[i],
            ) by {
                assert(after.drop_last()[i] == after[i]);
            }
            padding_is_trimmed_away(before, text, after.drop_last());
        } else {
            assert(s[0] == after[0]);
            assert(s.skip(1) =~= before + text + after.skip(1));
            assert forall|i: int| 0 <= i < after.len() - 1 implies white_space(
                #[trigger] after.skip(1)[i],
            ) by {
                assert(after.skip(1)[i] == after[i + 1]);
            }
            padding_is_trimmed_away(before, text, after.skip(1));
        }
    } else {
        assert(s =~= text);
    }
}

/// What follows a prefix is what was written behind it, and a text that is not
/// the prefix with something behind it has no such rest.
pub proof fn prefix_and_rest(s: Seq<char>, prefix: Seq<char>, rest: Seq<char>)
    ensures
        after_prefix(s, prefix) == Some(rest) <==> s == prefix + rest,
        after_prefix(s, prefix) is Some <==> has_prefix(s, prefix),
        after_prefix(prefix + rest, prefix) == Some(rest),
{
    let whole = prefix + rest;
    assert(whole.take(prefix.len() as int) =~= prefix);
    assert(whole.skip(prefix.len() as int) =~= rest);
    if after_prefix(s, prefix) == Some(rest) {
        assert(s =~= s.take(prefix.len() as int) + s.skip(prefix.len() as int));
    }
}

/// A text is cut at the first separator: what stands before it holds none.
pub proof fn cut_at_the_first(s: Seq<char>, c: char, left: Seq<char>, right: Seq<char>)
    ensures
        split_first(s, c) == Some((left, right)) <==> s == left + seq![c] + right
            && !left.contains(c),
        split_first(s, c) is None <==> !s.contains(c),
{
    first_index_is_first(s, c);
    let i = first_index(s, c);
    if split_first(s, c) == Some((left, right)) {
        assert(s =~= left + seq![c] + right);
        assert forall|j: int| 0 <= j < left.len() implies left[j] != c by {
            assert(left[j] == s[j]);
        }
    }
    if s == left + seq![c] + right && !left.contains(c) {
        assert(s[left.len() as int] == c);
        assert(s.contains(c));
        assert forall|j: int| 0 <= j < left.len() implies s[j] != c by {
            assert(s[j] == left[j]);
            assert(left.contains(left[j]));
        }
        assert(i == left.len());
        assert(s.take(i) =~= left);
        assert(s.skip(i + 1) =~= right);
    }
}

/// The parts with the separator between them.
pub open spec fn joined_by(parts: Seq<Seq<char>>, c: char) -> Seq<char>
    decreases parts.len(),
{
    if parts.len() == 0 {
        seq![]
    } else if parts.len() == 1 {
        parts[0]
    } else {
        parts[0] + seq![c] + joined_by(parts.skip(1), c)
    }
}

/// The pieces of a text, with the separators between them, are the text, and no
/// piece holds a separator.
pub proof fn pieces_make_the_text(s: Seq<char>, c: char)
    ensures
        pieces(s, c).len() > 0,
        joined_by(pieces(s, c), c) == s,
        forall|i: int| 0 <= i < pieces(s, c).len() ==> !(#[trigger] pieces(s, c)[i]).contains(c),
    decreases s.len(),
{
    first_index_is_first(s, c);
    let i = first_index(s, c);
    let all = pieces(s, c);
    if i < s.len() {
        let rest = s.skip(i + 1);
        pieces_make_the_text(rest, c);
        assert(all.skip(1) =~= pieces(rest, c));
        assert(s =~= s.take(i) + seq![c] + rest);
        assert forall|j: int| 0 <= j < all.len() implies !(#[trigger] all[j]).contains(c) by {
            if j == 0 {
                assert forall|k: int| 0 <= k < i implies s.take(i)[k] != c by {
                    assert(s.take(i)[k] == s[k]);
                }
            } else {
                assert(all[j] == pieces(rest, c)[j - 1]);
            }
        }
    } else {
        assert(all =~= seq![s]);
        assert(!s.contains(c));
    }
}

/// Parts without the separator, joined by it, are the pieces again.
pub proof fn joined_parts_are_the_pieces(parts: Seq<Seq<char>>, c: char)
    requires
        parts.len() > 0,
        forall|i: int| 0 <= i < parts.len() ==> !(#[trigger] parts[i]).contains(c),
    ensures
        pieces(joined_by(parts, c), c) == parts,
    decreases parts.len(),
{
    let s = joined_by(parts, c);
    first_index_is_first(s, c);
    assert(!parts[0].contains(c));
    if parts.len() == 1 {
        assert(pieces(s, c) =~= parts);
    } else {
        let rest = parts.skip(1);
        assert forall|i: int| 0 <= i < rest.len() implies !(#[trigger] rest[i]).contains(c) by {
            assert(rest[i] == parts[i + 1]);
        }
        joined_parts_are_the_pieces(rest, c);
        let right = joined_by(rest, c);
        cut_at_the_first(s, c, parts[0], right);
        assert(s[parts[0].len() as int] == c);
        assert(first_index(s, c) < s.len());
        assert(pieces(s, c) =~= seq![parts[0]] + pieces(right, c));
        assert(parts =~= seq![parts[0]] + rest);
    }
}

/// The last digit of a decimal number is the remainder by ten, and the digits
/// before it write the quotient; a number below ten is one digit.
pub proof fn decimal_digits(n: nat)
    ensures
        decimal(n).last() as nat == 48 + n % 10,
        n < 10 ==> decimal(n).len() == 1,
        n >= 10 ==> decimal(n).drop_last() == decimal(n / 10),
        n > 0 ==> decimal(n)[0] != '0',
        decimal_int(n as int) == decimal(n),
        n > 0 ==> decimal_int(-(n as int)) == seq!['-'] + decimal(n),
    decreases n,
{
    if n >= 10 {
        decimal_digits(n / 10);
        assert(decimal(n).drop_last() =~= decimal(n / 10));
        decimal_writes(n / 10);
        assert(decimal(n)[0] == decimal(n / 10)[0]);
    }
}

/// `count` zeros.
pub open spec fn zeros(count: nat) -> Seq<char> {
    Seq::new(count, |i: int| '0')
}

proof fn leading_zeros_count_nothing(count: nat, n: nat)
    ensures
        is_number(zeros(count) + decimal(n)),
        digits_value(zeros(count) + decimal(n)) == n,
    decreases n,
{
    let s = zeros(count) + decimal(n);
    decimal_writes(n);
    assert forall|i: int| 0 <= i < s.len() implies is_digit(#[trigger] s[i]) by {
        if i >= count {
            assert(s[i] == decimal(n)[i - count]);
        }
    }
    if n >= 10 {
        leading_zeros_count_nothing(count, n / 10);
        assert(s.drop_last() =~= zeros(count) + decimal(n / 10));
    } else {
        assert(s.drop_last() =~= zeros(count));
        zeros_are_nothing(count);
    }
}

proof fn zeros_are_nothing(count: nat)
    ensures
        digits_value(zeros(count)) == 0,
    decreases count,
{
    if count > 0 {
        zeros_are_nothing((count - 1) as nat);
        assert(zeros(count).drop_last() =~= zeros((count - 1) as nat));
    }
}

proof fn digits_are_zeros_and_a_number(s: Seq<char>) -> (count: nat)
    requires
        is_number(s),
    ensures
        s == zeros(count) + decimal(digits_value(s)),
    decreases s.len(),
{
    let rest = s.drop_last();
    let digit = (s.last() as nat - '0' as nat) as nat;
    assert(is_digit(s[s.len() - 1]));
    assert(digit_char(digit) == s.last());
    assert(s =~= rest.push(s.last()));
    if rest.len() == 0 {
        assert(digits_value(rest) == 0);
        assert(s =~= zeros(0) + decimal(digit));
        0
    } else {
        assert forall|i: int| 0 <= i < rest.len() implies is_digit(#[trigger] rest[i]) by {
            assert(rest[i] == s[i]);
        }
        let count = digits_are_zeros_and_a_number(rest);
        let value = digits_value(rest);
        if value == 0 {
            assert(decimal(0) =~= seq!['0']);
            assert(rest =~= zeros(count + 1));
            assert(decimal(digit) =~= seq![s.last()]);
            assert(s =~= zeros(count + 1) + decimal(digit));
            count + 1
        } else {
            let n = digits_value(s);
            assert(n == 10 * value + digit);
            assert(n / 10 == value && n % 10 == digit);
            assert(decimal(n) =~= decimal(value).push(s.last()));
            assert(s =~= zeros(count) + decimal(n));
            count
        }
    }
}

/// `s` is the number `n` in decimal, with zeros before it or not.
pub open spec fn writes(s: Seq<char>, n: nat) -> bool {
    exists|count: nat| s == #[trigger] zeros(count) + decimal(n)
}

proof fn numbers_are_written(s: Seq<char>)
    ensures
        is_number(s) <==> exists|n: nat| writes(s, n),
        is_number(s) ==> writes(s, digits_value(s)),
        forall|n: nat| #[trigger] writes(s, n) ==> digits_value(s) == n,
{
    if is_number(s) {
        let count = digits_are_zeros_and_a_number(s);
        assert(s == zeros(count) + decimal(digits_value(s)));
        assert(writes(s, digits_value(s)));
    }
    assert forall|n: nat| #[trigger] writes(s, n) implies digits_value(s) == n && is_number(s) by {
        let count = choose|count: nat| s == #[trigger] zeros(count) + decimal(n);
        leading_zeros_count_nothing(count, n);
    }
}

proof fn unsigned_is_read(s: Seq<char>, hi: int, n: int)
    requires
        hi >= 0,
    ensures
        parsed_integer(s, false, 0, hi) == Some(n) <==> 0 <= n <= hi && (writes(s, n as nat)
            || exists|rest: Seq<char>| s == seq!['+'] + rest && #[trigger] writes(rest, n as nat)),
{
    numbers_are_written(s);
    if s.len() > 0 && s[0] == '+' {
        let digits = s.skip(1);
        numbers_are_written(digits);
        assert(s =~= seq!['+'] + digits);
        assert(!is_digit(s[0]));
        assert(!is_number(s));
        if 0 <= n <= hi && exists|rest: Seq<char>|
            s == seq!['+'] + rest && #[trigger] writes(rest, n as nat) {
            let rest = choose|rest: Seq<char>|
                s == seq!['+'] + rest && #[trigger] writes(rest, n as nat);
            assert(rest =~= digits);
        }
        if parsed_integer(s, false, 0, hi) == Some(n) {
            assert(writes(digits, n as nat));
        }
    } else {
        if exists|rest: Seq<char>| s == seq!['+'] + rest && #[trigger] writes(rest, n as nat) {
            let rest = choose|rest: Seq<char>|
                s == seq!['+'] + rest && #[trigger] writes(rest, n as nat);
            assert(s[0] == '+');
        }
    }
}

/// A text is read as the number `n`, where it fits, if it writes `n` in decimal,
/// a `+` before it or not, and never otherwise.
pub proof fn unsigned_numbers_are_read(s: Seq<char>, n: int)
    ensures
        parsed_u64(s) == Some(n) <==> 0 <= n <= u64::MAX && (writes(s, n as nat)
            || exists|rest: Seq<char>| s == seq!['+'] + rest && #[trigger] writes(rest, n as nat)),
        parsed_u16(s) == Some(n) <==> 0 <= n <= u16::MAX && (writes(s, n as nat)
            || exists|rest: Seq<char>| s == seq!['+'] + rest && #[trigger] writes(rest, n as nat)),
{
    unsigned_is_read(s, u64::MAX as int, n);
    unsigned_is_read(s, u16::MAX as int, n);
}

/// A text is read as the number `n`, where it fits, if it writes `n` in decimal
/// with a sign before it or, where `n` is not negative, without, and never
/// otherwise.
pub proof fn signed_numbers_are_read(s: Seq<char>, n: int)
    ensures
        parsed_i64(s) == Some(n) <==> i64::MIN <= n <= i64::MAX && (n >= 0 && writes(s, n as nat)
            || n >= 0 && (exists|rest: Seq<char>|
            s == seq!['+'] + rest && #[trigger] writes(rest, n as nat)) || n <= 0 && (exists|
            rest: Seq<char>,
        |
            s == seq!['-'] + rest && #[trigger] writes(rest, (-n) as nat))),
{
    numbers_are_written(s);
    let plus = exists|rest: Seq<char>|
        s == seq!['+'] + rest && #[trigger] writes(rest, n as nat);
    let minus = exists|rest: Seq<char>|
        s == seq!['-'] + rest && #[trigger] writes(rest, (-n) as nat);
    if plus {
        let rest = choose|rest: Seq<char>|
            s == seq!['+'] + rest && #[trigger] writes(rest, n as nat);
        assert(s[0] == '+');
        assert(s.skip(1) =~= rest);
    }
    if minus {
        let rest = choose|rest: Seq<char>|
            s == seq!['-'] + rest && #[trigger] writes(rest, (-n) as nat);
        assert(s[0] == '-');
        assert(s.skip(1) =~= rest);
    }
    if s.len() > 0 && (s[0] == '+' || s[0] == '-') {
        let digits = s.skip(1);
        numbers_are_written(digits);
        assert(s =~= seq![s[0]] + digits);
        assert(!is_digit(s[0]));
        assert(!is_number(s));
        if parsed_i64(s) == Some(n) {
            if s[0] == '+' {
                assert(writes(digits, n as nat));
            } else {
                assert(writes(digits, (-n) as nat));
            }
        }
    }
}

/// A number written in decimal is read back, where it fits.
pub proof fn decimal_is_read_back(n: nat)
    ensures
        n <= u64::MAX ==> parsed_u64(decimal(n)) == Some(n as int),
        n > u64::MAX ==> parsed_u64(decimal(n)) is None,
        n <= u16::MAX ==> parsed_u16(decimal(n)) == Some(n as int),
        n > u16::MAX ==> parsed_u16(decimal(n)) is None,
        n <= i64::MAX ==> parsed_i64(decimal(n)) == Some(n as int),
        n > i64::MAX ==> parsed_i64(decimal(n)) is None,
        is_number(decimal(n)),
{
    decimal_writes(n);
    assert(is_digit(decimal(n)[0]));
}

/// Two texts are the same but for the case of letters where, at each place, the
/// characters are equal or one is the small and one the capital letter of ASCII.
pub proof fn same_but_for_case(a: Seq<char>, b: Seq<char>)
    ensures
        same_ignoring_ascii_case(a, b) <==> a.len() == b.len() && forall|i: int|
            0 <= i < a.len() ==> {
                ||| #[trigger] a[i] == b[i]
                ||| 'A' <= a[i] <= 'Z' && b[i] as u32 == a[i] as u32 + 32
                ||| 'A' <= b[i] <= 'Z' && a[i] as u32 == b[i] as u32 + 32
            },
{
}

/// What is left without a character holds it nowhere and keeps all else in
/// order: it splits where the text splits, and a text without it stays as it is.
pub proof fn one_character_is_taken_out(a: Seq<char>, c: char, b: Seq<char>)
    ensures
        !without_char(a, c).contains(c),
        !a.contains(c) ==> without_char(a, c) == a,
        without_char(a + seq![c] + b, c) == without_char(a, c) + without_char(b, c),
{
    taken_out_of_two(a, seq![c], c);
    taken_out_of_two(a + seq![c], b, c);
    assert(without_char(seq![c], c) =~= seq![]) by {
        reveal_with_fuel(Seq::filter, 2);
        assert(seq![c].drop_last() =~= seq![]);
    }
    assert(without_char(a, c) + Seq::<char>::empty() =~= without_char(a, c));
    taken_out(a, c);
}

proof fn taken_out_of_two(a: Seq<char>, b: Seq<char>, c: char)
    ensures
        without_char(a + b, c) == without_char(a, c) + without_char(b, c),
    decreases b.len(),
{
    reveal(Seq::filter);
    if b.len() == 0 {
        assert(a + b =~= a);
        assert(without_char(b, c) =~= seq![]);
        assert(without_char(a, c) + Seq::<char>::empty() =~= without_char(a, c));
    } else {
        assert((a + b).drop_last() =~= a + b.drop_last());
        taken_out_of_two(a, b.drop_last(), c);
        assert(without_char(a + b, c) =~= without_char(a, c) + without_char(b, c));
    }
}

proof fn taken_out(a: Seq<char>, c: char)
    ensures
        !without_char(a, c).contains(c),
        !a.contains(c) ==> without_char(a, c) == a,
    decreases a.len(),
{
    reveal(Seq::filter);
    if a.len() > 0 {
        let rest = a.drop_last();
        taken_out(rest, c);
        let out = without_char(rest, c);
        assert forall|i: int| 0 <= i < out.len() implies out[i] != c by {
            assert(out.contains(out[i]));
        }
        if !a.contains(c) {
            assert(a.contains(a.last()));
            assert forall|i: int| 0 <= i < rest.len() implies rest[i] != c by {
                assert(a.contains(a[i]));
            }
            assert(a =~= rest.push(a.last()));
        }
    }
}

} // verus!
