//! The parts of a file that an upload has received.
use vstd::prelude::*;

verus! {

/// One part of a file: the bytes `start_byte..end_byte`, and their checksum. `S`
/// is the type of text, `String` or its mathematical value.
#[derive(Debug, PartialEq, Eq)]
pub struct UploadedPart<S> {
    pub start_byte: i64,
    pub end_byte: i64,
    pub checksum: S,
}

/// A part as a mathematical value.
pub type Part = UploadedPart<Seq<char>>;

impl<S: DeepView> DeepView for UploadedPart<S> {
    type V = UploadedPart<S::V>;

    open spec fn deep_view(&self) -> Self::V {
        UploadedPart {
            start_byte: self.start_byte,
            end_byte: self.end_byte,
            checksum: self.checksum.deep_view(),
        }
    }
}

/// How many bytes the parts hold together.
pub open spec fn total_bytes(parts: Seq<Part>) -> int
    decreases parts.len(),
{
    if parts.len() == 0 {
        0
    } else {
        total_bytes(parts.drop_last()) + (parts.last().end_byte - parts.last().start_byte)
    }
}

pub open spec fn fits_i64(n: int) -> bool {
    i64::MIN <= n <= i64::MAX
}

/// The sizes of the parts can be added up, one after the other, in an `i64`.
pub open spec fn total_fits(parts: Seq<Part>) -> bool {
    &&& forall|i: int|
        0 <= i < parts.len() ==> fits_i64(
            (#[trigger] parts[i]).end_byte - parts[i].start_byte,
        )
    &&& forall|k: int| 0 <= k <= parts.len() ==> fits_i64(total_bytes(#[trigger] parts.take(k)))
}

/// Whether the sizes of the parts can be added up, one after the other, in an
/// `i64`.
pub fn can_total(parts: &[UploadedPart<String>]) -> (r: bool)
    ensures
        r == total_fits(parts.deep_view()),
{
    let ghost all = parts.deep_view();
    let mut total: i64 = 0;
    let mut i: usize = 0;
    while i < parts.len()
        invariant
            all == parts.deep_view(),
            i <= all.len() == parts@.len(),
            total == total_bytes(all.take(i as int)),
            forall|j: int|
                0 <= j < i ==> fits_i64((#[trigger] all[j]).end_byte - all[j].start_byte),
            forall|k: int| 0 <= k <= i ==> fits_i64(total_bytes(#[trigger] all.take(k))),
        decreases parts.len() - i,
    {
        proof {
            assert(all[i as int] == parts@[i as int].deep_view());
            assert(all.take(i + 1).drop_last() =~= all.take(i as int));
        }
        match parts[i].end_byte.checked_sub(parts[i].start_byte) {
            Some(size) => match total.checked_add(size) {
                Some(sum) => {
                    total = sum;
                },
                None => {
                    return false;
                },
            },
            None => {
                return false;
            },
        }
        i += 1;
    }
    true
}

/// How many bytes the parts hold together.
pub fn total_uploaded_bytes(parts: &[UploadedPart<String>]) -> (r: i64)
    requires
        total_fits(parts.deep_view()),
    ensures
        r == total_bytes(parts.deep_view()),
{
    let ghost all = parts.deep_view();
    let mut total: i64 = 0;
    let mut i: usize = 0;
    while i < parts.len()
        invariant
            all == parts.deep_view(),
            i <= all.len() == parts@.len(),
            total_fits(all),
            total == total_bytes(all.take(i as int)),
        decreases parts.len() - i,
    {
        proof {
            assert(all[i as int] == parts@[i as int].deep_view());
            assert(all.take(i + 1).drop_last() =~= all.take(i as int));
            assert(fits_i64(total_bytes(all.take(i + 1))));
        }
        total = total + (parts[i].end_byte - parts[i].start_byte);
        i += 1;
    }
    assert(all.take(all.len() as int) =~= all);
    total
}

/// The byte at which the part `i` has to begin to follow on the part before it.
pub open spec fn expected_start(parts: Seq<Part>, i: int) -> i64 {
    if i <= 0 {
        0
    } else {
        parts[i - 1].end_byte
    }
}

/// The parts follow on each other from the first byte of the file on.
pub open spec fn contiguous(parts: Seq<Part>) -> bool {
    forall|i: int|
        0 <= i < parts.len() ==> (#[trigger] parts[i]).start_byte == expected_start(parts, i)
}

/// Where the parts end, if they follow on each other from the first byte of the
/// file on.
pub fn contiguous_end(parts: &[UploadedPart<String>]) -> (r: Option<i64>)
    ensures
        r is Some <==> contiguous(parts.deep_view()),
        r matches Some(end) ==> end == expected_start(
            parts.deep_view(),
            parts.deep_view().len() as int,
        ),
{
    let ghost all = parts.deep_view();
    let mut expected: i64 = 0;
    let mut i: usize = 0;
    while i < parts.len()
        invariant
            all == parts.deep_view(),
            i <= all.len() == parts@.len(),
            expected == expected_start(all, i as int),
            forall|j: int|
                0 <= j < i ==> (#[trigger] all[j]).start_byte == expected_start(all, j),
        decreases parts.len() - i,
    {
        assert(all[i as int] == parts@[i as int].deep_view());
        if parts[i].start_byte != expected {
            return None;
        }
        expected = parts[i].end_byte;
        i += 1;
    }
    Some(expected)
}

/// The part shares a byte with the range.
pub open spec fn overlaps(part: Part, start_byte: i64, end_byte: i64) -> bool {
    part.start_byte < end_byte && part.end_byte > start_byte
}

/// How many of the parts share a byte with the range.
pub open spec fn overlap_count(parts: Seq<Part>, start_byte: i64, end_byte: i64) -> nat
    decreases parts.len(),
{
    if parts.len() == 0 {
        0
    } else {
        overlap_count(parts.drop_last(), start_byte, end_byte) + if overlaps(
            parts.last(),
            start_byte,
            end_byte,
        ) {
            1nat
        } else {
            0nat
        }
    }
}

/// The parts with `part` among them, in the order of their first bytes.
pub open spec fn with_part(parts: Seq<Part>, part: Part) -> Seq<Part>
    decreases parts.len(),
{
    if parts.len() == 0 || parts.last().start_byte < part.start_byte {
        parts.push(part)
    } else {
        with_part(parts.drop_last(), part).push(parts.last())
    }
}

/// The parts lie within a file of `file_size` bytes, none is empty, they are in
/// order, and no two of them share a byte.
pub open spec fn well_placed(parts: Seq<Part>, file_size: int) -> bool {
    &&& forall|i: int|
        0 <= i < parts.len() ==> 0 <= (#[trigger] parts[i]).start_byte < parts[i].end_byte
            <= file_size
    &&& forall|i: int, j: int|
        0 <= i < j < parts.len() ==> (#[trigger] parts[i]).end_byte <= (
        #[trigger] parts[j]).start_byte
}

/// Well-placed parts hold no more bytes than the place where they end, and just
/// as many where they follow on each other.
proof fn total_against_end(parts: Seq<Part>, file_size: int)
    requires
        well_placed(parts, file_size),
        file_size >= 0,
    ensures
        0 <= total_bytes(parts) <= expected_start(parts, parts.len() as int) <= file_size,
        contiguous(parts) <==> total_bytes(parts) == expected_start(parts, parts.len() as int),
    decreases parts.len(),
{
    if parts.len() > 0 {
        let head = parts.drop_last();
        let n = head.len() as int;
        assert(well_placed(head, file_size));
        total_against_end(head, file_size);
        assert(expected_start(head, n) == expected_start(parts, n));
        assert(expected_start(parts, n) <= parts[n].start_byte) by {
            if n > 0 {
                assert(parts[n - 1].end_byte <= parts[n].start_byte);
            }
        }
        if contiguous(parts) {
            assert forall|i: int| 0 <= i < head.len() implies (#[trigger] head[i]).start_byte
                == expected_start(head, i) by {
                assert(parts[i].start_byte == expected_start(parts, i));
            }
            assert(parts[n].start_byte == expected_start(parts, n));
        }
        if total_bytes(parts) == expected_start(parts, parts.len() as int) {
            assert forall|i: int| 0 <= i < parts.len() implies (#[trigger] parts[i]).start_byte
                == expected_start(parts, i) by {
                if i < n {
                    assert(head[i].start_byte == expected_start(head, i));
                }
            }
        }
    }
}

/// Well-placed parts of a file hold at most as many bytes as the file, and the
/// number is an `i64` at every step of the sum.
pub proof fn well_placed_total(parts: Seq<Part>, file_size: i64)
    requires
        well_placed(parts, file_size as int),
        file_size >= 0,
    ensures
        0 <= total_bytes(parts) <= file_size,
        total_fits(parts),
{
    total_against_end(parts, file_size as int);
    assert forall|k: int| 0 <= k <= parts.len() implies fits_i64(
        total_bytes(#[trigger] parts.take(k)),
    ) by {
        assert(well_placed(parts.take(k), file_size as int));
        total_against_end(parts.take(k), file_size as int);
    }
}

/// Well-placed parts hold as many bytes as the file if and only if they follow
/// on each other from its first byte to its last: counting the bytes is enough
/// to know that nothing is missing.
pub proof fn full_count_means_no_gap(parts: Seq<Part>, file_size: i64)
    requires
        well_placed(parts, file_size as int),
        file_size >= 0,
    ensures
        total_bytes(parts) == file_size <==> contiguous(parts) && expected_start(
            parts,
            parts.len() as int,
        ) == file_size,
{
    total_against_end(parts, file_size as int);
}

/// A count of zero means that no part shares a byte with the range.
pub proof fn no_overlap(parts: Seq<Part>, start_byte: i64, end_byte: i64)
    ensures
        overlap_count(parts, start_byte, end_byte) <= parts.len(),
        overlap_count(parts, start_byte, end_byte) == 0 <==> forall|i: int|
            0 <= i < parts.len() ==> !overlaps(#[trigger] parts[i], start_byte, end_byte),
    decreases parts.len(),
{
    if parts.len() > 0 {
        let head = parts.drop_last();
        no_overlap(head, start_byte, end_byte);
        if overlap_count(parts, start_byte, end_byte) == 0 {
            assert forall|i: int| 0 <= i < parts.len() implies !overlaps(
                #[trigger] parts[i],
                start_byte,
                end_byte,
            ) by {
                if i < head.len() {
                    assert(head[i] == parts[i]);
                }
            }
        } else if forall|i: int|
            0 <= i < parts.len() ==> !overlaps(#[trigger] parts[i], start_byte, end_byte) {
            assert forall|i: int| 0 <= i < head.len() implies !overlaps(
                #[trigger] head[i],
                start_byte,
                end_byte,
            ) by {
                assert(head[i] == parts[i]);
            }
        }
    }
}

/// Adding a part adds its bytes to the total and keeps every other part.
pub proof fn with_part_adds(parts: Seq<Part>, part: Part)
    ensures
        with_part(parts, part).len() == parts.len() + 1,
        total_bytes(with_part(parts, part)) == total_bytes(parts) + (part.end_byte
            - part.start_byte),
        forall|p: Part| #[trigger]
            with_part(parts, part).contains(p) <==> parts.contains(p) || p == part,
    decreases parts.len(),
{
    let all = with_part(parts, part);
    if parts.len() == 0 || parts.last().start_byte < part.start_byte {
        assert(all.drop_last() =~= parts);
        assert forall|p: Part| #[trigger] all.contains(p) <==> parts.contains(p) || p == part by {
            if parts.contains(p) {
                let i = choose|i: int| 0 <= i < parts.len() && parts[i] == p;
                assert(all[i] == p);
            }
            assert(all[parts.len() as int] == part);
        }
    } else {
        let head = parts.drop_last();
        let rest = with_part(head, part);
        with_part_adds(head, part);
        assert(all.drop_last() =~= rest);
        assert forall|p: Part| #[trigger] all.contains(p) <==> parts.contains(p) || p == part by {
            if all.contains(p) {
                let i = choose|i: int| 0 <= i < all.len() && all[i] == p;
                if i < rest.len() {
                    assert(rest[i] == p);
                    assert(rest.contains(p));
                    if head.contains(p) {
                        let j = choose|j: int| 0 <= j < head.len() && head[j] == p;
                        assert(parts[j] == p);
                    }
                } else {
                    assert(parts[parts.len() - 1] == p);
                }
            }
            if parts.contains(p) {
                let i = choose|i: int| 0 <= i < parts.len() && parts[i] == p;
                if i < head.len() {
                    assert(head[i] == p);
                    assert(rest.contains(p));
                    let j = choose|j: int| 0 <= j < rest.len() && rest[j] == p;
                    assert(all[j] == p);
                } else {
                    assert(all[rest.len() as int] == p);
                }
            }
            if p == part {
                assert(rest.contains(p));
                let j = choose|j: int| 0 <= j < rest.len() && rest[j] == p;
                assert(all[j] == p);
            }
        }
    }
}

/// A part that shares no byte with the others takes its place among them.
pub proof fn with_part_well_placed(parts: Seq<Part>, part: Part, file_size: int)
    requires
        well_placed(parts, file_size),
        0 <= part.start_byte < part.end_byte <= file_size,
        forall|i: int|
            0 <= i < parts.len() ==> !overlaps(
                #[trigger] parts[i],
                part.start_byte,
                part.end_byte,
            ),
    ensures
        well_placed(with_part(parts, part), file_size),
    decreases parts.len(),
{
    let all = with_part(parts, part);
    if parts.len() == 0 || parts.last().start_byte < part.start_byte {
        assert forall|i: int, j: int| 0 <= i < j < all.len() implies (#[trigger] all[i]).end_byte
            <= (#[trigger] all[j]).start_byte by {
            if j == parts.len() {
                assert(!overlaps(parts[parts.len() - 1], part.start_byte, part.end_byte));
                if i < parts.len() - 1 {
                    assert(parts[i].end_byte <= parts[parts.len() - 1].start_byte);
                }
            }
        }
    } else {
        let head = parts.drop_last();
        let last = parts.last();
        let rest = with_part(head, part);
        assert forall|i: int| 0 <= i < head.len() implies !overlaps(
            #[trigger] head[i],
            part.start_byte,
            part.end_byte,
        ) by {
            assert(head[i] == parts[i]);
        }
        with_part_well_placed(head, part, file_size);
        with_part_adds(head, part);
        assert(!overlaps(parts[parts.len() - 1], part.start_byte, part.end_byte));
        assert forall|i: int, j: int| 0 <= i < j < all.len() implies (#[trigger] all[i]).end_byte
            <= (#[trigger] all[j]).start_byte by {
            if j == rest.len() {
                assert(rest.contains(rest[i]));
                if rest[i] != part {
                    let k = choose|k: int| 0 <= k < head.len() && head[k] == rest[i];
                    assert(parts[k].end_byte <= parts[parts.len() - 1].start_byte);
                }
            } else {
                assert(rest[i].end_byte <= rest[j].start_byte);
            }
        }
    }
}

/// Parts that follow on each other reach every byte up to where they end.
pub proof fn every_byte_in_a_part(parts: Seq<Part>, b: int)
    requires
        contiguous(parts),
        0 <= b < expected_start(parts, parts.len() as int),
    ensures
        exists|i: int|
            0 <= i < parts.len() && (#[trigger] parts[i]).start_byte <= b < parts[i].end_byte,
    decreases parts.len(),
{
    if parts.len() > 0 {
        let n = parts.len() - 1;
        assert(parts[n].start_byte == expected_start(parts, n));
        if b < parts[n].start_byte {
            let head = parts.drop_last();
            assert forall|i: int| 0 <= i < head.len() implies (#[trigger] head[i]).start_byte
                == expected_start(head, i) by {
                assert(parts[i].start_byte == expected_start(parts, i));
            }
            every_byte_in_a_part(head, b);
            let i = choose|i: int|
                0 <= i < head.len() && (#[trigger] head[i]).start_byte <= b < head[i].end_byte;
            assert(parts[i] == head[i]);
        }
    }
}

} // verus!
