//! Byte ranges asked of the remote resource, and what a range response says.
use vstd::prelude::*;

verus! {

/// An inclusive span `[start, end]` of resource offsets.
#[derive(Debug, Clone, Copy, PartialEq, Eq, Structural)]
pub struct ByteRange {
    pub start: u64,
    pub end: u64,
}

/// Why a range response cannot be used.
#[derive(Debug, Clone, Copy, PartialEq, Eq, Structural)]
pub enum FetchError {
    /// The status is neither "OK" nor "Partial Content".
    Status,
    /// The Content-Range field is missing, unreadable, or not a byte range.
    RangeHeader,
}

/// A response to a range request, as received.
#[derive(Debug)]
pub struct RangeResponse {
    pub status: u16,
    pub content_range: Option<String>,
    pub body: Vec<u8>,
}

/// The range for a fetch of `size` bytes at `position`, never past `max_end`.
///
/// `position == 0 && size == 0` is the one-byte probe `[0, 0]`. Otherwise the
/// end is `position + size - 1`, lowered to `max_end`. There is no range when
/// nothing is asked for, when `position` already lies past `max_end`, or when
/// the end does not fit in a `u64`.
pub open spec fn data_range(position: u64, size: nat, max_end: Option<u64>) -> Option<ByteRange> {
    if position == 0 && size == 0 {
        Some(ByteRange { start: 0, end: 0 })
    } else if size == 0 {
        None
    } else {
        match max_end {
            Some(m) => if position > m {
                None
            } else if size - 1 <= m - position {
                if position + size - 1 <= u64::MAX {
                    Some(ByteRange { start: position, end: (position + size - 1) as u64 })
                } else {
                    None
                }
            } else {
                Some(ByteRange { start: position, end: m })
            },
            None => if position + size - 1 <= u64::MAX {
                Some(ByteRange { start: position, end: (position + size - 1) as u64 })
            } else {
                None
            },
        }
    }
}

/// Computes the range of a fetch of `size` bytes at `position`.
pub fn get_data_range(position: u64, size: usize, max_end_position: Option<u64>) -> (r: Option<ByteRange>)
    ensures
        r == data_range(position, size as nat, max_end_position),
        r matches Some(br) ==> br.start == position,
        forall|m: u64| max_end_position == Some(m) ==> (r matches Some(br) ==> br.end <= m),
        forall|m: u64|
            max_end_position == Some(m) && size >= 1 && position <= m && m - position < size - 1
                ==> r == Some(ByteRange { start: position, end: m }),
{
    if position == 0 && size == 0 {
        return Some(ByteRange { start: 0, end: 0 });
    }
    if size == 0 {
        return None;
    }
    let last = (size - 1) as u64;
    match max_end_position {
        Some(m) => {
            if position > m {
                None
            } else if last <= m - position {
                Some(ByteRange { start: position, end: position + last })
            } else {
                Some(ByteRange { start: position, end: m })
            }
        },
        None => {
            if last <= u64::MAX - position {
                Some(ByteRange { start: position, end: position + last })
            } else {
                None
            }
        },
    }
}

/// What hyperx reads from a Content-Range value: `Some(total)` for a byte range,
/// with `total` absent where the value gives `*`; `None` where the value does not
/// parse or names another unit.
pub uninterp spec fn content_range_length(s: Seq<char>) -> Option<Option<u64>>;

/// Relies on hyperx's `ContentRangeSpec::from_str`, which parses a Content-Range
/// value; only the instance length of a byte range is kept.
#[verifier::external_body]
pub(crate) fn parse_content_range(value: &str) -> (r: Option<Option<u64>>)
    ensures
        r == content_range_length(value@),
{
    match <hyperx::header::ContentRangeSpec as std::str::FromStr>::from_str(value) {
        Ok(hyperx::header::ContentRangeSpec::Bytes { instance_length, .. }) => Some(instance_length),
        Ok(hyperx::header::ContentRangeSpec::Unregistered { .. }) => None,
        Err(_) => None,
    }
}

/// The statuses a range request may be answered with: "OK" and "Partial Content".
pub open spec fn status_accepted(status: u16) -> bool {
    status == 200 || status == 206
}

/// The total length a response reports, given its status and what its
/// Content-Range field reads as (`None` when the field is missing or unusable).
pub open spec fn reported_length(status: u16, range_length: Option<Option<u64>>) -> Result<
    Option<u64>,
    FetchError,
> {
    if !status_accepted(status) {
        Err(FetchError::Status)
    } else {
        match range_length {
            Some(length) => Ok(length),
            None => Err(FetchError::RangeHeader),
        }
    }
}

/// What a Content-Range field, present or not, reads as.
pub open spec fn field_length(content_range: Option<Seq<char>>) -> Option<Option<u64>> {
    match content_range {
        Some(s) => content_range_length(s),
        None => None,
    }
}

/// Checks a response's status and the already parsed Content-Range field, and
/// returns the total length it reports.
pub fn check_response(status: u16, range_length: Option<Option<u64>>) -> (r: Result<Option<u64>, FetchError>)
    ensures
        r == reported_length(status, range_length),
{
    if !(status == 200 || status == 206) {
        return Err(FetchError::Status);
    }
    match range_length {
        Some(length) => Ok(length),
        None => Err(FetchError::RangeHeader),
    }
}

/// Checks a response's status and parses its Content-Range field.
pub fn response_length(status: u16, content_range: Option<&str>) -> (r: Result<Option<u64>, FetchError>)
    ensures
        r == reported_length(status, field_length(content_range.deep_view())),
{
    if !(status == 200 || status == 206) {
        return Err(FetchError::Status);
    }
    let range_length = match content_range {
        Some(s) => parse_content_range(s),
        None => None,
    };
    check_response(status, range_length)
}

} // verus!
