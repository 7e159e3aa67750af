//! Which bytes of a file a request asks for.
use vstd::prelude::*;

use crate::error::{refusal, AppError, Refusal, RANGE_NOT_SATISFIABLE};
use crate::step::outcome;
use crate::text::{after_prefix, has_char, parse_u64, parsed_u64, split_first, split_once};
use crate::text::{strip_prefix, trim, trimmed};

verus! {

pub open spec fn bad_range() -> Refusal {
    refusal(RANGE_NOT_SATISFIABLE, "Range 格式错误"@)
}

pub open spec fn range_outside() -> Refusal {
    refusal(RANGE_NOT_SATISFIABLE, "Range 超出范围"@)
}

/// The first and the last byte that `first-last`, `first-` or `-count` asks for
/// of a file of `total_size` bytes, at least one.
pub open spec fn one_range(first: Seq<char>, last: Seq<char>, total_size: u64) -> Result<
    (u64, u64),
    Refusal,
> {
    if first.len() == 0 {
        match parsed_u64(last) {
            None => Err(bad_range()),
            Some(count) => if count == 0 {
                Err(range_outside())
            } else if count >= total_size {
                Ok((0, (total_size - 1) as u64))
            } else {
                Ok(((total_size - count) as u64, (total_size - 1) as u64))
            },
        }
    } else {
        let end = if last.len() == 0 {
            Some(total_size - 1)
        } else {
            parsed_u64(last)
        };
        match (parsed_u64(first), end) {
            (Some(start), Some(end)) => if start > end || start >= total_size {
                Err(range_outside())
            } else if end >= total_size {
                Ok((start as u64, (total_size - 1) as u64))
            } else {
                Ok((start as u64, end as u64))
            },
            _ => Err(bad_range()),
        }
    }
}

/// The first and the last byte that the header asks for of a file of
/// `total_size` bytes; `None` where it asks for the whole file. A file without
/// bytes has no ranges, and what does not begin with `bytes=` asks for none.
pub open spec fn range_of(header: Seq<char>, total_size: u64) -> Result<
    Option<(u64, u64)>,
    Refusal,
> {
    if total_size == 0 {
        Ok(None)
    } else {
        match after_prefix(trimmed(header), "bytes="@) {
            None => Ok(None),
            Some(ranges) => if ranges.contains(',') {
                Err(refusal(RANGE_NOT_SATISFIABLE, "暂不支持多段下载"@))
            } else {
                match split_first(ranges, '-') {
                    None => Err(bad_range()),
                    Some((first, last)) => match one_range(first, last, total_size) {
                        Ok(range) => Ok(Some(range)),
                        Err(refused) => Err(refused),
                    },
                }
            },
        }
    }
}

fn bad_range_error() -> (r: AppError)
    ensures
        r.deep_view() == bad_range(),
{
    AppError::new(RANGE_NOT_SATISFIABLE, "Range 格式错误")
}

fn range_outside_error() -> (r: AppError)
    ensures
        r.deep_view() == range_outside(),
{
    AppError::new(RANGE_NOT_SATISFIABLE, "Range 超出范围")
}

/// The first and the last byte that the header asks for of a file of
/// `total_size` bytes; `None` where it asks for the whole file.
pub fn parse_range_header(range_header: &str, total_size: u64) -> (r: Result<
    Option<(u64, u64)>,
    AppError,
>)
    ensures
        outcome(r) == range_of(range_header@, total_size),
{
    if total_size == 0 {
        return Ok(None);
    }
    let value = trim(range_header);
    let ranges = match strip_prefix(value.as_str(), "bytes=") {
        Some(ranges) => ranges,
        None => {
            return Ok(None);
        },
    };
    if has_char(ranges.as_str(), ',') {
        return Err(AppError::new(RANGE_NOT_SATISFIABLE, "暂不支持多段下载"));
    }
    let (start_raw, end_raw) = match split_once(ranges.as_str(), '-') {
        Some(sides) => sides,
        None => {
            return Err(bad_range_error());
        },
    };
    let last_index: u64 = total_size - 1;
    if start_raw.as_str().is_empty() {
        let suffix = match parse_u64(end_raw.as_str()) {
            Some(suffix) => suffix,
            None => {
                return Err(bad_range_error());
            },
        };
        if suffix == 0 {
            return Err(range_outside_error());
        }
        let start: u64 = if suffix >= total_size {
            0
        } else {
            total_size - suffix
        };
        return Ok(Some((start, last_index)));
    }
    let start = match parse_u64(start_raw.as_str()) {
        Some(start) => start,
        None => {
            return Err(bad_range_error());
        },
    };
    let end = if end_raw.as_str().is_empty() {
        last_index
    } else {
        match parse_u64(end_raw.as_str()) {
            Some(end) => end,
            None => {
                return Err(bad_range_error());
            },
        }
    };
    if start > end || start >= total_size {
        return Err(range_outside_error());
    }
    if end >= total_size {
        Ok(Some((start, last_index)))
    } else {
        Ok(Some((start, end)))
    }
}

/// A range that is granted lies within the file and holds at least one byte.
pub proof fn granted_range_lies_in_the_file(header: Seq<char>, total_size: u64)
    ensures
        range_of(header, total_size) matches Ok(Some((start, end))) ==> start <= end < total_size,
{
}

} // verus!
