//! What can be relied on about the ranges of a file that a client asks for.
use vstd::prelude::*;

use crate::error::Refusal;
use crate::range::range_of;
use crate::text::{after_prefix, decimal, decimal_writes, is_digit, parsed_u64, split_first};
use crate::text::trimmed;
use crate::text_laws::{bare, blank, cut_at_the_first, decimal_is_read_back};
use crate::text_laws::{padding_is_trimmed_away, prefix_and_rest};

verus! {

/// The header that asks for what `ranges` says.
pub open spec fn bytes_header(ranges: Seq<char>) -> Seq<char> {
    seq!['b', 'y', 't', 'e', 's', '='] + ranges
}

/// The header that asks for the bytes from `first` to `last`.
pub open spec fn first_to_last(first: Seq<char>, last: Seq<char>) -> Seq<char> {
    bytes_header(first + seq!['-'] + last)
}

/// The bytes from `start` to `end`, the last one too.
pub open spec fn bytes_between(start: int, end: int) -> Result<Option<(u64, u64)>, Refusal> {
    Ok(Some((start as u64, end as u64)))
}

pub open spec fn outside_the_file() -> Result<Option<(u64, u64)>, Refusal> {
    Err(Refusal { status: 416, message: "Range 超出范围"@ })
}

pub open spec fn not_a_range() -> Result<Option<(u64, u64)>, Refusal> {
    Err(Refusal { status: 416, message: "Range 格式错误"@ })
}

proof fn header_is_cut(first: Seq<char>, last: Seq<char>)
    requires
        !first.contains('-'),
        !first.contains(','),
        !last.contains(','),
        last.len() > 0 ==> bare(last),
    ensures
        ({
            let ranges = first + seq!['-'] + last;
            &&& trimmed(first_to_last(first, last)) == first_to_last(first, last)
            &&& after_prefix(first_to_last(first, last), "bytes="@) == Some(ranges)
            &&& !ranges.contains(',')
            &&& split_first(ranges, '-') == Some((first, last))
        }),
{
    let ranges = first + seq!['-'] + last;
    let header = first_to_last(first, last);
    reveal_strlit("bytes=");
    assert("bytes="@ =~= seq!['b', 'y', 't', 'e', 's', '=']);
    assert(header[0] == 'b');
    assert(header.last() == if last.len() > 0 {
        last.last()
    } else {
        '-'
    });
    assert(Seq::<char>::empty() + header + Seq::<char>::empty() =~= header);
    padding_is_trimmed_away(seq![], header, seq![]);
    prefix_and_rest(header, "bytes="@, ranges);
    cut_at_the_first(ranges, '-', first, last);
    assert forall|i: int| 0 <= i < ranges.len() implies ranges[i] != ',' by {
        if i < first.len() {
            assert(ranges[i] == first[i]);
            assert(first.contains(first[i]));
        } else if i > first.len() {
            assert(ranges[i] == last[i - first.len() - 1]);
            assert(last.contains(last[i - first.len() - 1]));
        }
    }
}

proof fn decimal_stands_alone(n: nat)
    ensures
        decimal(n).len() > 0,
        bare(decimal(n)),
        !decimal(n).contains('-'),
        !decimal(n).contains(','),
{
    decimal_writes(n);
    let s = decimal(n);
    assert(is_digit(s[0]));
    assert(is_digit(s[s.len() - 1]));
    assert forall|i: int| 0 <= i < s.len() implies s[i] != '-' && s[i] != ',' by {
        assert(is_digit(s[i]));
    }
}

/// `bytes=a-b` is granted the bytes from `a` to `b`, or to the end of the file
/// where `b` lies behind it, whatever the size of the file. It is refused only if
/// `b` lies before `a`, or `a` behind the end.
pub proof fn from_first_to_last_is_granted(a: u64, b: u64, total_size: u64)
    requires
        total_size > 0,
    ensures
        a <= b && a < total_size && b < total_size ==> range_of(
            first_to_last(decimal(a as nat), decimal(b as nat)),
            total_size,
        ) == bytes_between(a as int, b as int),
        a <= b && a < total_size && b >= total_size ==> range_of(
            first_to_last(decimal(a as nat), decimal(b as nat)),
            total_size,
        ) == bytes_between(a as int, total_size - 1),
        a > b || a >= total_size ==> range_of(
            first_to_last(decimal(a as nat), decimal(b as nat)),
            total_size,
        ) == outside_the_file(),
{
    decimal_stands_alone(a as nat);
    decimal_stands_alone(b as nat);
    header_is_cut(decimal(a as nat), decimal(b as nat));
    decimal_is_read_back(a as nat);
    decimal_is_read_back(b as nat);
}

/// `bytes=a-` is granted all bytes from `a` on, whatever the size of the file.
/// It is refused only if `a` lies behind the end.
pub proof fn from_first_on_is_granted(a: u64, total_size: u64)
    requires
        total_size > 0,
    ensures
        a < total_size ==> range_of(first_to_last(decimal(a as nat), seq![]), total_size)
            == bytes_between(a as int, total_size - 1),
        a >= total_size ==> range_of(first_to_last(decimal(a as nat), seq![]), total_size)
            == outside_the_file(),
{
    decimal_stands_alone(a as nat);
    header_is_cut(decimal(a as nat), seq![]);
    decimal_is_read_back(a as nat);
}

/// `bytes=-n` is granted the last `n` bytes, or the whole file where it has
/// fewer. It is refused only if `n` is zero.
pub proof fn the_last_bytes_are_granted(n: u64, total_size: u64)
    requires
        total_size > 0,
    ensures
        0 < n <= total_size ==> range_of(first_to_last(seq![], decimal(n as nat)), total_size)
            == bytes_between(total_size - n, total_size - 1),
        n > total_size ==> range_of(first_to_last(seq![], decimal(n as nat)), total_size)
            == bytes_between(0, total_size - 1),
        n == 0 ==> range_of(first_to_last(seq![], decimal(n as nat)), total_size)
            == outside_the_file(),
{
    decimal_stands_alone(n as nat);
    header_is_cut(seq![], decimal(n as nat));
    decimal_is_read_back(n as nat);
}

/// A range is granted only if it was asked for: the header is `bytes=` and two
/// texts with a `-` between them, of which the first is the number of the first
/// byte or, where it is empty, the second is how many of the last bytes are
/// wanted. No byte before the first one or behind the last one is granted. All
/// numbers are good that leave at least one byte of the file.
pub proof fn only_what_was_asked_for_is_granted(
    first: Seq<char>,
    last: Seq<char>,
    total_size: u64,
)
    requires
        !first.contains('-'),
        !first.contains(','),
        !last.contains(','),
        last.len() > 0 ==> bare(last),
        total_size > 0,
    ensures
        match range_of(first_to_last(first, last), total_size) {
            Ok(Some((start, end))) => {
                &&& start <= end < total_size
                &&& first.len() > 0 ==> parsed_u64(first) == Some(start as int)
                &&& last.len() == 0 ==> end == total_size - 1
                &&& first.len() > 0 && last.len() > 0 ==> (parsed_u64(last) matches Some(b) && end
                    <= b && (end == b || end == total_size - 1))
                &&& first.len() == 0 ==> end == total_size - 1 && (parsed_u64(last) matches Some(n)
                    && end - start < n && (end - start + 1 == n || start == 0))
            },
            Ok(None) => false,
            Err(refused) => {
                &&& refused.status == 416
                &&& refused.message == "Range 格式错误"@ <==> {
                    ||| first.len() > 0 && parsed_u64(first) is None
                    ||| last.len() > 0 && parsed_u64(last) is None
                    ||| first.len() == 0 && last.len() == 0
                }
                &&& refused.message == "Range 格式错误"@ || refused.message == "Range 超出范围"@
            },
        },
        range_of(first_to_last(first, last), total_size) is Ok <==> {
            ||| {
                &&& first.len() > 0
                &&& parsed_u64(first) is Some
                &&& parsed_u64(first)->0 < total_size
                &&& last.len() > 0 ==> parsed_u64(last) is Some && parsed_u64(first)->0
                    <= parsed_u64(last)->0
            }
            ||| {
                &&& first.len() == 0
                &&& parsed_u64(last) is Some
                &&& parsed_u64(last)->0 > 0
            }
        },
{
    header_is_cut(first, last);
    reveal_strlit("Range 格式错误");
    reveal_strlit("Range 超出范围");
    assert("Range 格式错误"@[6] != "Range 超出范围"@[6]);
    if last.len() == 0 {
        assert(last =~= seq![]);
        assert(parsed_u64(last) is None);
    }
}

/// White space around the header changes nothing.
pub proof fn blanks_around_a_range(
    before: Seq<char>,
    header: Seq<char>,
    after: Seq<char>,
    total_size: u64,
)
    requires
        blank(before),
        blank(after),
        bare(header),
    ensures
        range_of(before + header + after, total_size) == range_of(header, total_size),
{
    padding_is_trimmed_away(before, header, after);
    padding_is_trimmed_away(seq![], header, seq![]);
    assert(Seq::<char>::empty() + header + Seq::<char>::empty() =~= header);
}

/// The whole file is answered exactly if the file is empty or the header does
/// not speak of bytes.
pub proof fn other_headers_ask_for_the_whole_file(header: Seq<char>, total_size: u64)
    requires
        bare(header),
    ensures
        range_of(header, total_size) == Ok::<Option<(u64, u64)>, Refusal>(None) <==> total_size == 0
            || !(exists|ranges: Seq<char>| header == #[trigger] bytes_header(ranges)),
{
    padding_is_trimmed_away(seq![], header, seq![]);
    assert(Seq::<char>::empty() + header + Seq::<char>::empty() =~= header);
    reveal_strlit("bytes=");
    assert("bytes="@ =~= seq!['b', 'y', 't', 'e', 's', '=']);
    match after_prefix(header, "bytes="@) {
        Some(ranges) => {
            prefix_and_rest(header, "bytes="@, ranges);
            assert(header == bytes_header(ranges));
        },
        None => {
            if exists|ranges: Seq<char>| header == #[trigger] bytes_header(ranges) {
                let ranges = choose|ranges: Seq<char>| header == #[trigger] bytes_header(ranges);
                prefix_and_rest(header, "bytes="@, ranges);
            }
        },
    }
}

/// More than one range, or none with a `-`, is refused.
pub proof fn several_ranges_are_refused(ranges: Seq<char>, total_size: u64)
    requires
        total_size > 0,
        bare(bytes_header(ranges)),
    ensures
        ranges.contains(',') ==> range_of(bytes_header(ranges), total_size) == Err::<
            Option<(u64, u64)>,
            Refusal,
        >(Refusal { status: 416, message: "暂不支持多段下载"@ }),
        !ranges.contains(',') && !ranges.contains('-') ==> range_of(
            bytes_header(ranges),
            total_size,
        ) == not_a_range(),
{
    let header = bytes_header(ranges);
    padding_is_trimmed_away(seq![], header, seq![]);
    assert(Seq::<char>::empty() + header + Seq::<char>::empty() =~= header);
    reveal_strlit("bytes=");
    assert("bytes="@ =~= seq!['b', 'y', 't', 'e', 's', '=']);
    prefix_and_rest(header, "bytes="@, ranges);
    cut_at_the_first(ranges, '-', seq![], seq![]);
}

} // verus!
