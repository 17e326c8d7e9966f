//! The read-ahead window of the remote backend.
use vstd::prelude::*;

verus! {

/// Bytes already fetched but not yet handed to the caller, with the settings
/// that govern further fetches.
///
/// - `size`: the least number of bytes a fetch asks for; `None` turns the cache off.
/// - `position`: the offset up to which the resource has been fetched while the
///   cache is on.
/// - `max_end_position`: the inclusive offset that no fetch may go past.
/// - `buffer`: the fetched bytes, in the order they are to be delivered.
#[derive(Debug)]
pub struct Buffer {
    pub size: Option<usize>,
    pub position: u64,
    pub max_end_position: Option<u64>,
    pub buffer: Vec<u8>,
}

impl Buffer {
    /// An empty buffer with the cache off and no fetch bound.
    pub fn create() -> (r: Buffer)
        ensures
            r.size is None,
            r.position == 0,
            r.max_end_position is None,
            r.buffer@ == Seq::<u8>::empty(),
    {
        Buffer { size: None, position: 0, max_end_position: None, buffer: Vec::new() }
    }

    /// The number of bytes that can be delivered without fetching.
    pub fn get_cached_size(&self) -> (r: usize)
        ensures
            r == self.buffer@.len(),
    {
        self.buffer.len()
    }

    /// Moves the first `buf.len()` cached bytes into `buf`. When fewer bytes are
    /// cached, nothing changes and the result is `false`.
    pub fn get_data(&mut self, buf: &mut [u8]) -> (r: bool)
        ensures
            r == (old(buf)@.len() <= old(self).buffer@.len()),
            final(self).size == old(self).size,
            final(self).position == old(self).position,
            final(self).max_end_position == old(self).max_end_position,
            r ==> final(buf)@ == old(self).buffer@.take(old(buf)@.len() as int),
            r ==> final(self).buffer@ == old(self).buffer@.skip(old(buf)@.len() as int),
            !r ==> final(buf)@ == old(buf)@,
            !r ==> final(self).buffer@ == old(self).buffer@,
    {
        let n = buf.len();
        if n > self.buffer.len() {
            return false;
        }
        let mut i: usize = 0;
        while i < n
            invariant
                n == buf@.len(),
                n <= self.buffer@.len(),
                i <= n,
                self.buffer@ == old(self).buffer@,
                forall|j: int| 0 <= j < i ==> buf@[j] == self.buffer@[j],
            decreases n - i,
        {
            buf[i] = self.buffer[i];
            i = i + 1;
        }
        let rest = self.buffer.split_off(n);
        self.buffer = rest;
        assert(buf@ =~= old(self).buffer@.take(n as int));
        assert(self.buffer@ =~= old(self).buffer@.skip(n as int));
        true
    }

    /// Adds newly fetched bytes at the end of the cache.
    pub fn append_data(&mut self, full_data: &[u8])
        ensures
            final(self).buffer@ == old(self).buffer@ + full_data@,
            final(self).size == old(self).size,
            final(self).position == old(self).position,
            final(self).max_end_position == old(self).max_end_position,
    {
        self.buffer.extend_from_slice(full_data);
        assert(self.buffer@ =~= old(self).buffer@ + full_data@);
    }

    /// Drops every cached byte and moves the fetched-up-to offset back to 0.
    pub fn reset(&mut self)
        ensures
            final(self).buffer@ == Seq::<u8>::empty(),
            final(self).position == 0,
            final(self).size == old(self).size,
            final(self).max_end_position == old(self).max_end_position,
    {
        self.buffer = Vec::new();
        self.position = 0;
    }
}

} // verus!
