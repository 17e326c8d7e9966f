//! The remote backend: a cursor and a read-ahead cache over byte-range requests.
//!
//! A read is answered from the cache where it can be. Otherwise `read` names the
//! byte range to request, the caller performs the request, and `complete_read`
//! folds the response in and delivers the bytes.
use vstd::prelude::*;

use crate::buffer::Buffer;
use crate::range::{
    data_range, field_length, get_data_range, parse_content_range, reported_length,
    response_length, ByteRange, FetchError, RangeResponse,
};
use crate::reader::{Reader, SeekError, SeekFrom};

verus! {

/// The state of a remote reader, without its identifier.
///
/// `cached` holds the fetched bytes that follow `position`; while the cache is
/// on, `window` is the offset up to which the resource has been fetched.
pub struct ReaderModel {
    pub file_size: Option<u64>,
    pub position: nat,
    pub chunk_size: Option<usize>,
    pub window: nat,
    pub max_end: Option<u64>,
    pub cached: Seq<u8>,
}

/// What a read asks of its caller.
#[derive(Debug, Clone, Copy, PartialEq, Eq, Structural)]
pub enum ReadStep {
    /// The read is over and delivered this many bytes; 0 is the end of the stream.
    Done(usize),
    /// Request this range, then hand the response to `complete_read`.
    Fetch(ByteRange),
}

impl ReaderModel {
    pub open spec fn caching(self) -> bool {
        self.chunk_size is Some
    }

    /// Positions fit in a `u64`, and the cache is exactly the fetched bytes
    /// between the cursor and the fetched-up-to offset (empty while off).
    pub open spec fn wf(self) -> bool {
        &&& self.position <= u64::MAX
        &&& self.window <= u64::MAX
        &&& if self.caching() {
            self.position + self.cached.len() == self.window
        } else {
            self.cached.len() == 0
        }
    }

    /// Where the next fetch starts.
    pub open spec fn fetch_position(self) -> nat {
        if self.caching() {
            self.window
        } else {
            self.position
        }
    }

    /// How many bytes to fetch for a read of `n`: none when the cache holds
    /// them, else at least the chunk size while the cache is on.
    pub open spec fn size_to_load(self, n: usize) -> Option<usize> {
        if n <= self.cached.len() {
            None
        } else {
            match self.chunk_size {
                Some(c) => Some(if c >= n { c } else { n }),
                None => Some(n),
            }
        }
    }

    /// The range of a fetch of `size` bytes; `None` at the end of the stream.
    pub open spec fn load_plan(self, size: usize) -> Option<ByteRange> {
        let past_end = match self.file_size {
            Some(total) => self.fetch_position() >= total,
            None => false,
        };
        if past_end {
            None
        } else {
            data_range(self.fetch_position() as u64, size as nat, self.max_end)
        }
    }

    /// What a read of `n` bytes does first.
    pub open spec fn read_step(self, n: usize) -> ReadStep {
        match self.size_to_load(n) {
            None => ReadStep::Done(n),
            Some(size) => match self.load_plan(size) {
                None => ReadStep::Done(0),
                Some(r) => ReadStep::Fetch(r),
            },
        }
    }

    /// Delivers `n` cached bytes.
    pub open spec fn take(self, n: nat) -> ReaderModel {
        ReaderModel { position: self.position + n, cached: self.cached.skip(n as int), ..self }
    }

    /// Takes in a fetched body and the total length its response reported.
    pub open spec fn store(self, total: Option<u64>, body: Seq<u8>) -> ReaderModel {
        let file_size = match total {
            Some(t) => Some(t),
            None => self.file_size,
        };
        if self.caching() {
            ReaderModel {
                file_size,
                window: self.window + body.len(),
                cached: self.cached + body,
                ..self
            }
        } else {
            ReaderModel { file_size, position: self.position + body.len(), ..self }
        }
    }

    /// The state after a read of `n` bytes that fetched `body`, and how many
    /// bytes it delivered: `n`, or 0 when too few came.
    pub open spec fn complete(self, n: usize, total: Option<u64>, body: Seq<u8>) -> (ReaderModel, usize) {
        let s = self.store(total, body);
        if self.caching() {
            if n <= s.cached.len() {
                (s.take(n as nat), n)
            } else {
                (s, 0)
            }
        } else {
            if n <= body.len() {
                (s, n)
            } else {
                (s, 0)
            }
        }
    }

    /// The bytes such a read delivers when it delivers `n`.
    pub open spec fn delivered(self, n: usize, total: Option<u64>, body: Seq<u8>) -> Seq<u8> {
        if self.caching() {
            self.store(total, body).cached.take(n as int)
        } else {
            body.take(n as int)
        }
    }

    /// Moves the cursor to `p`, dropping the cache; the fetched-up-to offset
    /// follows the cursor while the cache is on.
    pub open spec fn reset_at(self, p: nat) -> ReaderModel {
        ReaderModel {
            position: p,
            cached: Seq::empty(),
            window: if self.caching() { p } else { 0 },
            ..self
        }
    }

    /// The state after a seek, or why it is refused.
    pub open spec fn seek(self, from: SeekFrom) -> Result<ReaderModel, SeekError> {
        match from {
            SeekFrom::Start(offset) => Ok(self.reset_at(offset as nat)),
            SeekFrom::End(offset) => match self.file_size {
                None => Err(SeekError::MissingSize),
                Some(total) => {
                    let p = total - offset;
                    if 0 <= p <= u64::MAX {
                        Ok(self.reset_at(p as nat))
                    } else {
                        Err(SeekError::InvalidPosition)
                    }
                },
            },
            SeekFrom::Current(delta) => {
                let p = self.position + delta;
                if !(0 <= p <= u64::MAX) {
                    Err(SeekError::InvalidPosition)
                } else if !self.caching() {
                    Ok(ReaderModel { position: p as nat, ..self })
                } else if 0 < delta < self.cached.len() {
                    Ok(self.take(delta as nat))
                } else {
                    Ok(self.reset_at(p as nat))
                }
            },
        }
    }

    /// The state after the chunk size is set: turning the cache off drops it,
    /// turning it on starts an empty window at the cursor.
    pub open spec fn with_chunk_size(self, chunk_size: Option<usize>) -> ReaderModel {
        match chunk_size {
            None => ReaderModel { chunk_size, cached: Seq::empty(), ..self },
            Some(_) => if self.caching() {
                ReaderModel { chunk_size, ..self }
            } else {
                ReaderModel { chunk_size, cached: Seq::empty(), window: self.position, ..self }
            },
        }
    }
}

/// Every operation keeps the cache consistent: while the cache is on, the
/// number of cached bytes is the fetched-up-to offset minus the cursor, and
/// while it is off nothing is cached.
pub proof fn lemma_operations_keep_cache_consistent(
    m: ReaderModel,
    n: usize,
    total: Option<u64>,
    body: Seq<u8>,
    from: SeekFrom,
    chunk_size: Option<usize>,
    max_end: Option<u64>,
)
    requires
        m.wf(),
    ensures
        n <= m.cached.len() ==> m.take(n as nat).wf(),
        m.fetch_position() + body.len() <= u64::MAX ==> m.complete(n, total, body).0.wf(),
        m.seek(from) is Ok ==> m.seek(from)->Ok_0.wf(),
        m.with_chunk_size(chunk_size).wf(),
        (ReaderModel { max_end, ..m }).wf(),
{
}

/// With the cache on, a read that delivered `n` bytes, from the cache or after a
/// fetch, followed by a seek of `-n` from the current position, puts the cursor
/// back where the read started.
pub proof fn lemma_seek_back_after_read(m: ReaderModel, n: usize, total: Option<u64>, body: Seq<u8>)
    requires
        m.wf(),
        m.caching(),
        n <= i64::MAX,
    ensures
        n <= m.cached.len() ==> ({
            let back = m.take(n as nat).seek(SeekFrom::Current((0 - n) as i64));
            back is Ok && back->Ok_0.position == m.position
        }),
        m.fetch_position() + body.len() <= u64::MAX && m.complete(n, total, body).1 == n ==> ({
            let back = m.complete(n, total, body).0.seek(SeekFrom::Current((0 - n) as i64));
            back is Ok && back->Ok_0.position == m.position
        }),
{
}

/// The total length learned from a metadata probe: the one its Content-Range
/// field gives when that field is a byte range, else its Content-Length.
pub open spec fn probed_size(range_length: Option<Option<u64>>, content_length: Option<u64>) -> Option<u64> {
    match range_length {
        Some(length) => length,
        None => content_length,
    }
}

/// Computes the total length learned from a metadata probe, given what its
/// Content-Range field reads as and its Content-Length.
pub fn size_from_probe(range_length: Option<Option<u64>>, content_length: Option<u64>) -> (r: Option<u64>)
    ensures
        r == probed_size(range_length, content_length),
{
    match range_length {
        Some(length) => length,
        None => content_length,
    }
}

/// Copies the first `buf.len()` bytes of `src` into `buf`.
fn copy_prefix(buf: &mut [u8], src: &[u8])
    requires
        old(buf)@.len() <= src@.len(),
    ensures
        final(buf)@ == src@.take(old(buf)@.len() as int),
{
    let n = buf.len();
    let mut i: usize = 0;
    while i < n
        invariant
            n == buf@.len(),
            n <= src@.len(),
            i <= n,
            forall|j: int| 0 <= j < i ==> buf@[j] == src@[j],
        decreases n - i,
    {
        buf[i] = src[i];
        i = i + 1;
    }
    assert(buf@ =~= src@.take(n as int));
}

/// A remote resource opened for reading.
#[derive(Debug)]
pub struct HttpReader {
    pub filename: String,
    pub file_size: Option<u64>,
    pub position: u64,
    pub buffer: Buffer,
}

impl View for HttpReader {
    type V = ReaderModel;

    open spec fn view(&self) -> ReaderModel {
        ReaderModel {
            file_size: self.file_size,
            position: self.position as nat,
            chunk_size: self.buffer.size,
            window: self.buffer.position as nat,
            max_end: self.buffer.max_end_position,
            cached: self.buffer.buffer@,
        }
    }
}

impl HttpReader {
    pub open spec fn wf(&self) -> bool {
        self@.wf()
    }

    /// Binds the reader to `filename`, with the total length learned from the
    /// metadata probe's Content-Range and Content-Length fields.
    pub fn open(&mut self, filename: &str, content_range: Option<&str>, content_length: Option<u64>)
        ensures
            final(self).filename@ == filename@,
            final(self)@ == (ReaderModel {
                file_size: probed_size(field_length(content_range.deep_view()), content_length),
                ..old(self)@
            }),
            old(self).wf() ==> final(self).wf(),
    {
        self.filename = filename.to_owned();
        let range_length = match content_range {
            Some(value) => parse_content_range(value),
            None => None,
        };
        self.file_size = size_from_probe(range_length, content_length);
    }

    /// Where the next fetch starts: the fetched-up-to offset while the cache is
    /// on, the cursor otherwise.
    pub fn fetch_position(&self) -> (r: u64)
        ensures
            r == self@.fetch_position(),
    {
        if self.buffer.size.is_some() {
            self.buffer.position
        } else {
            self.position
        }
    }

    /// How many bytes a read of `size` bytes has to fetch, if any.
    pub fn define_size_to_load(&self, size: usize) -> (r: Option<usize>)
        ensures
            r == self@.size_to_load(size),
    {
        if size <= self.buffer.get_cached_size() {
            return None;
        }
        match self.buffer.size {
            Some(cache_size) => Some(if cache_size >= size { cache_size } else { size }),
            None => Some(size),
        }
    }

    /// The range to request for a fetch of `size` bytes; `None` when the fetch
    /// would start at or past the known end of the resource, or no range can be
    /// formed there.
    pub fn load_data(&self, size: usize) -> (r: Option<ByteRange>)
        ensures
            r == self@.load_plan(size),
    {
        let position = self.fetch_position();
        if let Some(total_file_size) = self.file_size {
            if position >= total_file_size {
                return None;
            }
        }
        get_data_range(position, size, self.buffer.max_end_position)
    }

    /// Starts a read of `buf.len()` bytes. Bytes the cache holds are delivered at
    /// once; otherwise the result names the range to request, and nothing changes
    /// until the response is handed to `complete_read`.
    pub fn read(&mut self, buf: &mut [u8]) -> (r: ReadStep)
        requires
            old(self).wf(),
        ensures
            final(self).wf(),
            final(self).filename == old(self).filename,
            r == old(self)@.read_step(old(buf)@.len() as usize),
            old(buf)@.len() <= old(self)@.cached.len() ==> {
                &&& final(self)@ == old(self)@.take(old(buf)@.len())
                &&& final(buf)@ == old(self)@.cached.take(old(buf)@.len() as int)
            },
            old(buf)@.len() > old(self)@.cached.len() ==> {
                &&& final(self)@ == old(self)@
                &&& final(buf)@ == old(buf)@
            },
            forall|total: u64|
                old(self).file_size == Some(total) && old(self).position >= total
                    && old(self)@.cached.len() < old(buf)@.len() ==> r == ReadStep::Done(0),
    {
        let n = buf.len();
        match self.define_size_to_load(n) {
            None => {
                let _delivered = self.buffer.get_data(buf);
                self.position = self.position + n as u64;
                ReadStep::Done(n)
            },
            Some(size) => match self.load_data(size) {
                None => ReadStep::Done(0),
                Some(range) => ReadStep::Fetch(range),
            },
        }
    }

    /// Finishes a read of `buf.len()` bytes with the body fetched at
    /// `fetch_position` and the total length its response reported.
    ///
    /// The body is added to the cache while it is on; otherwise it is used
    /// directly, and a body shorter than the read ends the stream. The fetch
    /// position moves past the body either way.
    pub fn fold_response(&mut self, buf: &mut [u8], total: Option<u64>, body: Vec<u8>) -> (r: usize)
        requires
            old(self).wf(),
            old(self)@.fetch_position() + body@.len() <= u64::MAX,
        ensures
            final(self).wf(),
            final(self).filename == old(self).filename,
            (final(self)@, r) == old(self)@.complete(old(buf)@.len() as usize, total, body@),
            r == old(buf)@.len() ==> final(buf)@ == old(self)@.delivered(r, total, body@),
            r != old(buf)@.len() ==> final(buf)@ == old(buf)@,
    {
        let n = buf.len();
        if let Some(t) = total {
            self.file_size = Some(t);
        }
        if self.buffer.size.is_some() {
            self.buffer.append_data(body.as_slice());
            self.buffer.position = self.buffer.position + body.len() as u64;
            if self.buffer.get_data(buf) {
                self.position = self.position + n as u64;
                n
            } else {
                0
            }
        } else {
            self.position = self.position + body.len() as u64;
            if n <= body.len() {
                copy_prefix(buf, body.as_slice());
                n
            } else {
                0
            }
        }
    }

    /// Finishes a read of `buf.len()` bytes that `read` answered with a range to
    /// request, given the response to that request. A response with an
    /// unexpected status or without a usable Content-Range field is refused,
    /// and nothing changes.
    pub fn complete_read(&mut self, buf: &mut [u8], response: RangeResponse) -> (r: Result<usize, FetchError>)
        requires
            old(self).wf(),
            old(self)@.fetch_position() + response.body@.len() <= u64::MAX,
        ensures
            final(self).wf(),
            final(self).filename == old(self).filename,
            ({
                let outcome = reported_length(
                    response.status,
                    field_length(response.content_range.deep_view()),
                );
                match outcome {
                    Err(e) => r == Err::<usize, FetchError>(e) && final(self)@ == old(self)@
                        && final(buf)@ == old(buf)@,
                    Ok(total) => {
                        let (after, k) = old(self)@.complete(old(buf)@.len() as usize, total, response.body@);
                        &&& r == Ok::<usize, FetchError>(k)
                        &&& final(self)@ == after
                        &&& k == old(buf)@.len() ==> final(buf)@ == old(self)@.delivered(k, total, response.body@)
                        &&& k != old(buf)@.len() ==> final(buf)@ == old(buf)@
                    },
                }
            }),
    {
        let content_range = match &response.content_range {
            Some(value) => Some(value.as_str()),
            None => None,
        };
        match response_length(response.status, content_range) {
            Err(e) => Err(e),
            Ok(total) => Ok(self.fold_response(buf, total, response.body)),
        }
    }

    /// Drops the cache; while it is on, the fetched-up-to offset moves to the cursor.
    fn reset_buffer(&mut self)
        ensures
            final(self).filename == old(self).filename,
            final(self)@ == old(self)@.reset_at(old(self)@.position),
    {
        self.buffer.reset();
        if self.buffer.size.is_some() {
            self.buffer.position = self.position;
        }
    }

    /// Moves the cursor and returns its new offset. A seek forward that stays
    /// inside the cache skips cached bytes; any other seek drops the cache. A
    /// refused seek changes nothing.
    pub fn seek(&mut self, from: SeekFrom) -> (r: Result<u64, SeekError>)
        requires
            old(self).wf(),
        ensures
            final(self).wf(),
            final(self).filename == old(self).filename,
            match old(self)@.seek(from) {
                Ok(after) => r == Ok::<u64, SeekError>(after.position as u64) && final(self)@ == after,
                Err(e) => r == Err::<u64, SeekError>(e) && final(self)@ == old(self)@,
            },
    {
        match from {
            SeekFrom::Start(offset) => {
                self.position = offset;
                self.reset_buffer();
                Ok(offset)
            },
            SeekFrom::End(offset) => match self.file_size {
                None => Err(SeekError::MissingSize),
                Some(size) => {
                    let target = size as i128 - offset as i128;
                    if target < 0 || target > u64::MAX as i128 {
                        return Err(SeekError::InvalidPosition);
                    }
                    self.position = target as u64;
                    self.reset_buffer();
                    Ok(self.position)
                },
            },
            SeekFrom::Current(offset) => {
                let target = self.position as i128 + offset as i128;
                if target < 0 || target > u64::MAX as i128 {
                    return Err(SeekError::InvalidPosition);
                }
                let target = target as u64;
                if self.buffer.size.is_some() {
                    if offset > 0 && (offset as u64) < self.buffer.get_cached_size() as u64 {
                        let mut skipped: Vec<u8> = vec![0u8; offset as usize];
                        let _skipped = self.buffer.get_data(skipped.as_mut_slice());
                        self.position = target;
                    } else {
                        self.position = target;
                        self.reset_buffer();
                    }
                } else {
                    self.position = target;
                }
                Ok(target)
            },
        }
    }
}

impl Reader for HttpReader {
    fn new() -> (r: HttpReader)
        ensures
            r.filename@ == Seq::<char>::empty(),
            r@ == (ReaderModel {
                file_size: None,
                position: 0,
                chunk_size: None,
                window: 0,
                max_end: None,
                cached: Seq::empty(),
            }),
            r.wf(),
    {
        HttpReader { filename: String::new(), file_size: None, position: 0, buffer: Buffer::create() }
    }

    fn get_cache_size(&self) -> (r: Option<usize>)
        ensures
            r == self.buffer.size,
    {
        self.buffer.size
    }

    fn set_cache_size(&mut self, cache_size: Option<usize>)
        ensures
            final(self).filename == old(self).filename,
            final(self)@ == old(self)@.with_chunk_size(cache_size),
            old(self).wf() ==> final(self).wf(),
    {
        match cache_size {
            None => {
                self.buffer.buffer = Vec::new();
            },
            Some(_) => {
                if self.buffer.size.is_none() {
                    self.buffer.buffer = Vec::new();
                    self.buffer.position = self.position;
                }
            },
        }
        self.buffer.size = cache_size;
        assert(self@.cached =~= old(self)@.with_chunk_size(cache_size).cached);
    }

    fn get_max_end_position(&self) -> (r: Option<u64>)
        ensures
            r == self.buffer.max_end_position,
    {
        self.buffer.max_end_position
    }

    fn set_max_end_position(&mut self, max_end_position: Option<u64>)
        ensures
            final(self).filename == old(self).filename,
            final(self)@ == (ReaderModel { max_end: max_end_position, ..old(self)@ }),
            old(self).wf() ==> final(self).wf(),
    {
        self.buffer.max_end_position = max_end_position;
    }

    fn get_position(&mut self) -> (r: Result<u64, String>)
        ensures
            *final(self) == *old(self),
            r == Ok::<u64, String>(old(self).position),
    {
        Ok(self.position)
    }

    fn get_size(&mut self) -> (r: Result<u64, String>)
        ensures
            *final(self) == *old(self),
            r is Ok <==> old(self).file_size is Some,
            forall|t: u64| old(self).file_size == Some(t) ==> r == Ok::<u64, String>(t),
    {
        match self.file_size {
            Some(length) => Ok(length),
            None => Err("No length detected".to_string()),
        }
    }
}

} // verus!
