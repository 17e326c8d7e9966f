//! The interface shared by the local and the remote backend.
use vstd::prelude::*;

verus! {

/// Where a seek is measured from.
///
/// `End(k)` lands `k` bytes before the end of the resource.
#[derive(Debug, Clone, Copy, PartialEq, Eq, Structural)]
pub enum SeekFrom {
    Start(u64),
    End(i64),
    Current(i64),
}

/// Why a seek was refused.
#[derive(Debug, Clone, Copy, PartialEq, Eq, Structural)]
pub enum SeekError {
    /// A seek from the end while the resource's length is unknown.
    MissingSize,
    /// The target lies before offset 0 or past the largest `u64`.
    InvalidPosition,
}

/// Settings and position queries common to every backend.
pub trait Reader: Sized {
    fn new() -> Self;

    fn get_cache_size(&self) -> Option<usize>;

    fn set_cache_size(&mut self, cache_size: Option<usize>);

    fn get_max_end_position(&self) -> Option<u64>;

    fn set_max_end_position(&mut self, max_end_position: Option<u64>);

    fn get_position(&mut self) -> Result<u64, String>;

    fn get_size(&mut self) -> Result<u64, String>;
}

} // verus!
