use vstd::math::min;
use vstd::prelude::*;

use crate::errors::TestCaseError;

verus! {

/// Where a seek starts from, following the usual stream convention.
#[derive(Clone, Copy, Debug, PartialEq, Eq, Structural)]
pub enum SeekFrom {
    Start(u64),
    Current(i64),
    End(i64),
}

/// The byte the deterministic pattern holds at absolute offset `k`.
pub open spec fn pattern_byte(k: int) -> u8 {
    (k % 256) as u8
}

/// The bytes the pattern holds at absolute offsets `start .. start + len`.
pub open spec fn pattern_seq(start: int, len: int) -> Seq<u8> {
    Seq::new(len as nat, |i: int| pattern_byte(start + i))
}

/// Reading a range of the pattern in two chunks yields the same bytes as
/// reading it in one: each emitted byte depends on its absolute offset alone,
/// never on how the reads are split.
pub proof fn lemma_pattern_split(start: int, m: int, k: int)
    requires
        0 <= m,
        0 <= k,
    ensures
        pattern_seq(start, m + k) == pattern_seq(start, m) + pattern_seq(start + m, k),
{
    assert(pattern_seq(start, m + k) =~= pattern_seq(start, m) + pattern_seq(start + m, k));
}

/// Deterministic, seekable synthetic byte source: the byte at absolute offset
/// `k` is `k % 256`, up to a fixed addressable length. Reads are pure
/// computation and complete immediately; no real storage is touched.
pub struct AsyncMockStream {
    limit: u64,
    pos: u64,
}

impl AsyncMockStream {
    /// Total addressable length, fixed at construction.
    pub closed spec fn limit_spec(&self) -> u64 {
        self.limit
    }

    /// Current cursor position.
    pub closed spec fn pos_spec(&self) -> u64 {
        self.pos
    }

    /// The cursor never runs past the limit.
    pub open spec fn wf(&self) -> bool {
        self.pos_spec() <= self.limit_spec()
    }

    /// Where a seek request would land, resolved against the current cursor
    /// and the limit.
    pub open spec fn seek_target(&self, from: SeekFrom) -> int {
        match from {
            SeekFrom::Start(offset) => offset as int,
            SeekFrom::Current(offset) => self.pos_spec() + offset,
            SeekFrom::End(offset) => self.limit_spec() + offset,
        }
    }

    pub fn new(limit: u64) -> (r: Self)
        ensures
            r.wf(),
            r.limit_spec() == limit,
            r.pos_spec() == 0,
    {
        Self { limit, pos: 0 }
    }

    /// Current cursor position, as a completed seek reports it.
    pub fn position(&self) -> (r: u64)
        ensures
            r == self.pos_spec(),
    {
        self.pos
    }

    /// Total addressable length.
    pub fn limit(&self) -> (r: u64)
        ensures
            r == self.limit_spec(),
    {
        self.limit
    }

    /// Emits the next `min(max_bytes, limit - pos)` bytes of the pattern and
    /// advances the cursor past them. At the limit it emits no bytes: end of
    /// stream is a zero-length read, never an error.
    pub fn read(&mut self, max_bytes: usize) -> (data: Vec<u8>)
        requires
            old(self).wf(),
        ensures
            final(self).wf(),
            final(self).limit_spec() == old(self).limit_spec(),
            data@.len() == min(max_bytes as int, old(self).limit_spec() - old(self).pos_spec()),
            final(self).pos_spec() == old(self).pos_spec() + data@.len(),
            data@ == pattern_seq(old(self).pos_spec() as int, data@.len() as int),
    {
        let start: u64 = self.pos;
        let remaining: u64 = self.limit - self.pos;
        let n: usize = if (max_bytes as u64) <= remaining {
            max_bytes
        } else {
            remaining as usize
        };
        self.pos = start + n as u64;
        let mut data: Vec<u8> = Vec::new();
        let mut i: usize = 0;
        while i < n
            invariant
                i <= n,
                n as u64 <= remaining,
                start + remaining <= u64::MAX,
                data@.len() == i,
                forall|j: int| 0 <= j < i ==> data@[j] == pattern_byte(start + j),
            decreases n - i,
        {
            data.push(((start + i as u64) % 256) as u8);
            i += 1;
        }
        proof {
            assert(data@ =~= pattern_seq(start as int, n as int));
        }
        data
    }

    /// Moves the cursor to the resolved position. A target that is negative
    /// or at or past the limit is refused: a read loop may legitimately reach
    /// the limit, but a seek may never land on or beyond it.
    pub fn seek(&mut self, from: SeekFrom) -> (r: Result<u64, TestCaseError>)
        requires
            old(self).wf(),
        ensures
            final(self).wf(),
            final(self).limit_spec() == old(self).limit_spec(),
            ({
                let target = old(self).seek_target(from);
                if 0 <= target < old(self).limit_spec() as int {
                    &&& r == Ok::<u64, TestCaseError>(target as u64)
                    &&& final(self).pos_spec() == target
                } else {
                    &&& r == Err::<u64, TestCaseError>(TestCaseError::InvalidSeek)
                    &&& final(self).pos_spec() == old(self).pos_spec()
                }
            }),
    {
        let target: i128 = match from {
            SeekFrom::Start(offset) => offset as i128,
            SeekFrom::Current(offset) => self.pos as i128 + offset as i128,
            SeekFrom::End(offset) => self.limit as i128 + offset as i128,
        };
        if target < 0 || target >= self.limit as i128 {
            Err(TestCaseError::InvalidSeek)
        } else {
            self.pos = target as u64;
            Ok(self.pos)
        }
    }
}

} // verus!
