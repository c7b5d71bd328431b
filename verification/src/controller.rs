use vstd::prelude::*;

use crate::errors::TestCaseError;
use crate::pattern::AsyncMockStream;
use crate::pattern::SeekFrom;

verus! {

/// Fixed logical length of the target, in bytes.
pub const TARGET_SIZE: u64 = 1024 * 1024 * 512;

/// Buffer capacity used for the file-backed reader variant.
pub const BACKED_BUFFER_CAPACITY: usize = 1024 * 512;

#[verifier::external_type_specification]
#[verifier::external_body]
pub struct ExFile(tokio::fs::File);

#[verifier::external_type_specification]
#[verifier::external_body]
#[verifier::reject_recursive_types(R)]
pub struct ExBufReader<R>(tokio::io::BufReader<R>);

/// Relies on tokio::io::BufReader::with_capacity: builds a buffered reader
/// over the file with the given buffer capacity.
#[verifier::external_body]
fn buffered(capacity: usize, file: tokio::fs::File) -> (r: tokio::io::BufReader<tokio::fs::File>) {
    tokio::io::BufReader::with_capacity(capacity, file)
}

/// Shared-ownership style handle: one exists per open read stream, and the
/// controller's reading count equals the number of tokens it has minted and
/// not yet taken back.
pub struct ReadToken {
    scoped: (),
}

/// Analogous handle for open write sessions.
pub struct WriteToken {
    scoped: (),
}

/// Polymorphic readable stream over the logical target: either the synthetic
/// byte-pattern generator or a buffered real file handle, each carrying the
/// reading token minted when it was created.
pub enum TestCaseReader {
    Mock { inner: AsyncMockStream, token: ReadToken },
    Real { inner: tokio::io::BufReader<tokio::fs::File>, token: ReadToken },
}

impl TestCaseReader {
    /// Synchronous read entry point for the synthetic variant, delegating to
    /// the generator unchanged. The file-backed variant is drained through
    /// asynchronous I/O at the caller's edge instead.
    pub fn read(&mut self, max_bytes: usize) -> (data: Vec<u8>)
        requires
            (*old(self)) is Mock,
            (*old(self))->Mock_inner.wf(),
        ensures
            (*final(self)) is Mock,
            (*final(self))->Mock_inner.wf(),
            (*final(self))->Mock_token == (*old(self))->Mock_token,
            (*final(self))->Mock_inner.limit_spec() == (*old(self))->Mock_inner.limit_spec(),
            data@.len() == vstd::math::min(
                max_bytes as int,
                (*old(self))->Mock_inner.limit_spec() - (*old(self))->Mock_inner.pos_spec(),
            ),
            (*final(self))->Mock_inner.pos_spec() == (*old(self))->Mock_inner.pos_spec() + data@.len(),
            data@ == crate::pattern::pattern_seq(
                (*old(self))->Mock_inner.pos_spec() as int,
                data@.len() as int,
            ),
    {
        match self {
            TestCaseReader::Mock { inner, .. } => inner.read(max_bytes),
            TestCaseReader::Real { .. } => Vec::new(),
        }
    }
}

/// Single source of truth for the logical target: its identity, the counts of
/// outstanding reader and writer tokens, and stream creation under the
/// exclusivity policy.
pub struct TestCaseController {
    path: String,
    reading_tokens: usize,
    writing_tokens: usize,
}

impl TestCaseController {
    /// Logical identifier of the backing resource.
    pub closed spec fn path_spec(&self) -> Seq<char> {
        self.path@
    }

    /// Number of outstanding reading tokens.
    pub closed spec fn reading_tokens_spec(&self) -> nat {
        self.reading_tokens as nat
    }

    /// Number of outstanding writing tokens.
    pub closed spec fn writing_tokens_spec(&self) -> nat {
        self.writing_tokens as nat
    }

    /// A writer is active exactly when a writing token is outstanding.
    pub open spec fn is_writing_spec(&self) -> bool {
        self.writing_tokens_spec() > 0
    }

    /// Placeholder mount detection: this design never reports active mounts.
    pub open spec fn is_mounted_spec(&self) -> bool {
        false
    }

    /// A fresh controller has no outstanding tokens.
    pub fn new(path: String) -> (r: Self)
        ensures
            r.path_spec() == path@,
            r.reading_tokens_spec() == 0,
            r.writing_tokens_spec() == 0,
    {
        Self { path, reading_tokens: 0, writing_tokens: 0 }
    }

    /// Logical identifier of the backing resource, for the caller that opens
    /// the real file.
    pub fn path(&self) -> (r: &String)
        ensures
            r@ == self.path_spec(),
    {
        &self.path
    }

    /// Fixed logical length of the target. Never fails, no side effects.
    pub fn size(&self) -> (r: u64)
        ensures
            r == TARGET_SIZE,
    {
        TARGET_SIZE
    }

    /// True exactly when a writer token is outstanding.
    pub fn is_writing(&self) -> (r: bool)
        ensures
            r == self.is_writing_spec(),
    {
        self.writing_tokens > 0
    }

    /// Number of currently open read streams.
    pub fn reading_count(&self) -> (r: usize)
        ensures
            r == self.reading_tokens_spec(),
    {
        self.reading_tokens
    }

    /// Placeholder capability check; always reports "not mounted".
    pub fn is_mounted(&self) -> (r: bool)
        ensures
            r == self.is_mounted_spec(),
    {
        false
    }

    /// Admission check and stream creation. Refused with `WriteInProgress`
    /// whenever a writer token is alive, whatever the reader count; refused
    /// with `TargetMounted` whenever the mount check reports mounts.
    /// Otherwise mints a reading token and returns the synthetic stream sized
    /// to the logical target, cursor at the start. The seek position applies
    /// only to the file-backed path and is ignored here, where the backing
    /// selection is fixed to the synthetic stream.
    pub fn get_reader(&mut self, _pos: Option<SeekFrom>) -> (r: Result<
        TestCaseReader,
        TestCaseError,
    >)
        requires
            old(self).reading_tokens_spec() < usize::MAX,
        ensures
            final(self).path_spec() == old(self).path_spec(),
            final(self).writing_tokens_spec() == old(self).writing_tokens_spec(),
            old(self).is_writing_spec() ==> ({
                &&& r == Err::<TestCaseReader, TestCaseError>(TestCaseError::WriteInProgress)
                &&& final(self).reading_tokens_spec() == old(self).reading_tokens_spec()
            }),
            !old(self).is_writing_spec() ==> ({
                &&& final(self).reading_tokens_spec() == old(self).reading_tokens_spec() + 1
                &&& r matches Ok(reader)
                &&& reader is Mock
                &&& reader->Mock_inner.wf()
                &&& reader->Mock_inner.limit_spec() == TARGET_SIZE
                &&& reader->Mock_inner.pos_spec() == 0
            }),
    {
        if self.is_writing() {
            return Err(TestCaseError::WriteInProgress);
        }
        if self.is_mounted() {
            return Err(TestCaseError::TargetMounted);
        }
        self.reading_tokens = self.reading_tokens + 1;
        Ok(
            TestCaseReader::Mock {
                inner: AsyncMockStream::new(self.size()),
                token: ReadToken { scoped: () },
            },
        )
    }

    /// File-backed counterpart of `get_reader`: the same admission check,
    /// then an already opened backing file is wrapped in a buffered reader.
    /// Opening and seeking the file happen at the caller's edge, where the
    /// asynchronous I/O lives.
    pub fn make_backed_reader(&mut self, file: tokio::fs::File) -> (r: Result<
        TestCaseReader,
        TestCaseError,
    >)
        requires
            old(self).reading_tokens_spec() < usize::MAX,
        ensures
            final(self).path_spec() == old(self).path_spec(),
            final(self).writing_tokens_spec() == old(self).writing_tokens_spec(),
            old(self).is_writing_spec() ==> ({
                &&& r == Err::<TestCaseReader, TestCaseError>(TestCaseError::WriteInProgress)
                &&& final(self).reading_tokens_spec() == old(self).reading_tokens_spec()
            }),
            !old(self).is_writing_spec() ==> ({
                &&& final(self).reading_tokens_spec() == old(self).reading_tokens_spec() + 1
                &&& r matches Ok(reader)
                &&& reader is Real
            }),
    {
        if self.is_writing() {
            return Err(TestCaseError::WriteInProgress);
        }
        if self.is_mounted() {
            return Err(TestCaseError::TargetMounted);
        }
        self.reading_tokens = self.reading_tokens + 1;
        Ok(
            TestCaseReader::Real {
                inner: buffered(BACKED_BUFFER_CAPACITY, file),
                token: ReadToken { scoped: () },
            },
        )
    }

    /// Takes a stream reader back and releases its token: the reading count
    /// strictly decreases by one.
    pub fn release_reader(&mut self, reader: TestCaseReader)
        requires
            old(self).reading_tokens_spec() >= 1,
        ensures
            final(self).path_spec() == old(self).path_spec(),
            final(self).writing_tokens_spec() == old(self).writing_tokens_spec(),
            final(self).reading_tokens_spec() == old(self).reading_tokens_spec() - 1,
    {
        let _ = reader;
        self.reading_tokens = self.reading_tokens - 1;
    }

    /// Mints a writing token. The minimal admission policy checks writers
    /// only when a reader is requested; writer-versus-writer and
    /// writer-versus-reader exclusion are left to the caller.
    pub fn get_writer(&mut self) -> (r: WriteToken)
        requires
            old(self).writing_tokens_spec() < usize::MAX,
        ensures
            final(self).path_spec() == old(self).path_spec(),
            final(self).reading_tokens_spec() == old(self).reading_tokens_spec(),
            final(self).writing_tokens_spec() == old(self).writing_tokens_spec() + 1,
            final(self).is_writing_spec(),
    {
        self.writing_tokens = self.writing_tokens + 1;
        WriteToken { scoped: () }
    }

    /// Takes a writing token back: the writing count strictly decreases by
    /// one.
    pub fn release_writer(&mut self, token: WriteToken)
        requires
            old(self).writing_tokens_spec() >= 1,
        ensures
            final(self).path_spec() == old(self).path_spec(),
            final(self).reading_tokens_spec() == old(self).reading_tokens_spec(),
            final(self).writing_tokens_spec() == old(self).writing_tokens_spec() - 1,
    {
        let _ = token;
        self.writing_tokens = self.writing_tokens - 1;
    }
}

} // verus!
