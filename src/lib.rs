//! Random-access reading over local files and HTTP byte-range resources.
//!
//! The remote backend keeps a read-ahead cache on top of range requests. The
//! decisions of that backend (what to serve from the cache, which byte range to
//! ask for, how a response is folded in, where a seek lands) are verified here;
//! performing the requests is left to the caller.
use vstd::prelude::*;
use vstd::string::StringSliceAdditionalSpecFns;

pub mod buffer;
pub mod http_reader;
pub mod range;
pub mod reader;

verus! {

/// The backend that serves a resource identifier.
#[derive(Debug, Clone, Copy, PartialEq, Eq, Structural)]
pub enum ReaderKind {
    Http,
    File,
}

/// `p` is a prefix of `s`.
pub open spec fn has_prefix(s: Seq<u8>, p: Seq<u8>) -> bool {
    p.len() <= s.len() && s.subrange(0, p.len() as int) == p
}

/// The identifier names a remote resource: it starts with `http://` or `https://`.
pub open spec fn is_http_identifier(s: Seq<u8>) -> bool {
    has_prefix(s, "http://".spec_bytes()) || has_prefix(s, "https://".spec_bytes())
}

/// Whether the bytes `s` start with the bytes `p`.
pub fn starts_with_bytes(s: &[u8], p: &[u8]) -> (r: bool)
    ensures
        r == has_prefix(s@, p@),
{
    if p.len() > s.len() {
        return false;
    }
    let mut i: usize = 0;
    while i < p.len()
        invariant
            p@.len() <= s@.len(),
            i <= p@.len(),
            forall|j: int| 0 <= j < i ==> s@[j] == p@[j],
        decreases p@.len() - i,
    {
        if s[i] != p[i] {
            assert(s@.subrange(0, p@.len() as int)[i as int] != p@[i as int]);
            return false;
        }
        i = i + 1;
    }
    assert(s@.subrange(0, p@.len() as int) =~= p@);
    true
}

/// Chooses the backend for a resource identifier: remote for `http://` and
/// `https://` identifiers, local file for everything else.
pub fn detect_kind(filename: &str) -> (r: ReaderKind)
    ensures
        r == (if is_http_identifier(filename.spec_bytes()) {
            ReaderKind::Http
        } else {
            ReaderKind::File
        }),
{
    let name = filename.as_bytes();
    if starts_with_bytes(name, "http://".as_bytes()) || starts_with_bytes(name, "https://".as_bytes()) {
        ReaderKind::Http
    } else {
        ReaderKind::File
    }
}

} // verus!
