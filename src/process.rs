//! The handle to a target process: acquired once from the outcome of the
//! operating system's open call, used for reads and writes while it is open,
//! and handed back for release exactly once.
//!
//! The operating-system calls themselves are made by the caller; this module
//! decides what is asked of them and what their outcomes mean.

use vstd::prelude::*;

use crate::value::{le_bytes, le_value, lemma_decode_encode};

verus! {

/// The operating system's handle value, as a plain integer. It is an
/// identifier in the handle table, never a local address.
#[derive(Clone, Copy, Debug, PartialEq, Eq, Structural)]
pub struct NativeHandle {
    pub raw: isize,
}

impl NativeHandle {
    /// A handle value is invalid when it is one of the two sentinels that the
    /// operating system uses for "no handle": zero and minus one.
    pub open spec fn spec_is_invalid(&self) -> bool {
        self.raw == 0 || self.raw == -1
    }

    #[verifier::when_used_as_spec(spec_is_invalid)]
    pub fn is_invalid(&self) -> (r: bool)
        ensures
            r == self.spec_is_invalid(),
    {
        self.raw == 0 || self.raw == -1
    }
}

/// An error as the operating system reported it: its code and its text.
#[derive(Clone, Debug, PartialEq, Eq)]
pub struct OsError {
    pub code: i32,
    pub message: String,
}

/// What can go wrong with a process handle.
#[derive(Clone, Debug, PartialEq, Eq)]
pub enum ProcessError {
    /// The process could not be opened. Carries the operating system's error,
    /// or `None` when the call handed back an invalid handle value.
    HandleAcquisitionFailed(Option<OsError>),
    /// A read or a write was rejected. Carries the operating system's error,
    /// or `None` when the handle had already been closed.
    MemoryAccessFailed(Option<OsError>),
    /// Releasing the handle failed; reported, never fatal.
    ReleaseFailed(OsError),
}

/// Where a handle stands in its life.
#[derive(Clone, Copy, Debug, PartialEq, Eq, Structural)]
pub enum HandleState {
    Opened,
    Closed,
}

/// The abstract state of a [`ProcessMemory`].
pub struct HandleModel {
    pub pid: u32,
    pub handle: NativeHandle,
    pub open: bool,
}

impl HandleModel {
    /// An open handle always holds a valid handle value.
    pub open spec fn wf(self) -> bool {
        self.open ==> !self.handle.spec_is_invalid()
    }

    /// The state after `close`: closed, with the same process and handle value.
    pub open spec fn closed(self) -> HandleModel {
        HandleModel { open: false, ..self }
    }

    /// The handle value that `close` hands out for release: the handle while
    /// it is open, nothing once it is closed.
    pub open spec fn released(self) -> Option<NativeHandle> {
        if self.open {
            Some(self.handle)
        } else {
            None
        }
    }
}

/// An exclusively owned handle to one target process.
pub struct ProcessMemory {
    pid: u32,
    handle: NativeHandle,
    state: HandleState,
}

impl View for ProcessMemory {
    type V = HandleModel;

    closed spec fn view(&self) -> HandleModel {
        HandleModel { pid: self.pid, handle: self.handle, open: self.state == HandleState::Opened }
    }
}

/// What the operating system reported for one read: the bytes it placed in a
/// scratch buffer of the requested size, and how many it says it moved.
#[derive(Clone, Debug, PartialEq, Eq)]
pub struct ReadReport {
    pub bytes: Vec<u8>,
    pub count: usize,
}

/// A read for the caller to perform: `size` bytes at `address` of the process
/// behind `handle`.
#[derive(Clone, Copy, Debug, PartialEq, Eq, Structural)]
pub struct ReadRequest {
    pub handle: NativeHandle,
    pub address: u64,
    pub size: usize,
}

/// A write for the caller to perform: `data` to `address` of the process
/// behind `handle`.
#[derive(Clone, Debug, PartialEq, Eq)]
pub struct WriteRequest {
    pub handle: NativeHandle,
    pub address: u64,
    pub data: Vec<u8>,
}

pub open spec fn min(a: int, b: int) -> int {
    if a <= b {
        a
    } else {
        b
    }
}

/// How many bytes a successful read delivers: what the operating system says it
/// moved, but never more than was asked for, than it placed in the scratch
/// buffer, or than fits in the caller's buffer.
pub open spec fn read_count(request: ReadRequest, report: ReadReport, buffer_len: int) -> int {
    min(min(report.count as int, request.size as int), min(report.bytes@.len() as int, buffer_len))
}

/// The caller's buffer after a successful read of `n` bytes: the first `n`
/// delivered bytes, then what the buffer held before.
pub open spec fn filled(buffer: Seq<u8>, bytes: Seq<u8>, n: int) -> Seq<u8> {
    bytes.subrange(0, n) + buffer.subrange(n, buffer.len() as int)
}

impl ReadRequest {
    /// Completes the read with what the operating system reported. On success
    /// the first `n` delivered bytes go to the front of `buffer` and `n` is
    /// returned, where `n` never exceeds the requested size; a short read is a
    /// success. On failure `buffer` is left as it was.
    pub fn complete(&self, buffer: &mut Vec<u8>, report: Result<ReadReport, OsError>) -> (r: Result<
        usize,
        ProcessError,
    >)
        ensures
            match report {
                Err(e) => {
                    &&& r == Err::<usize, ProcessError>(ProcessError::MemoryAccessFailed(Some(e)))
                    &&& final(buffer)@ == old(buffer)@
                },
                Ok(rep) => {
                    let n = read_count(*self, rep, old(buffer)@.len() as int);
                    &&& r == Ok::<usize, ProcessError>(n as usize)
                    &&& final(buffer)@ == filled(old(buffer)@, rep.bytes@, n)
                },
            },
            r is Ok ==> r->Ok_0 <= self.size && r->Ok_0 <= old(buffer)@.len(),
    {
        match report {
            Err(e) => Err(ProcessError::MemoryAccessFailed(Some(e))),
            Ok(rep) => {
                let mut n: usize = rep.count;
                if self.size < n {
                    n = self.size;
                }
                if rep.bytes.len() < n {
                    n = rep.bytes.len();
                }
                if buffer.len() < n {
                    n = buffer.len();
                }
                assert(n == read_count(*self, rep, old(buffer)@.len() as int));
                let mut i: usize = 0;
                while i < n
                    invariant
                        i <= n,
                        n <= rep.bytes@.len(),
                        n <= old(buffer)@.len(),
                        buffer@.len() == old(buffer)@.len(),
                        forall|j: int| 0 <= j < i ==> buffer@[j] == rep.bytes@[j],
                        forall|j: int| i <= j < buffer@.len() ==> buffer@[j] == old(buffer)@[j],
                    decreases n - i,
                {
                    buffer.set(i, rep.bytes[i]);
                    i = i + 1;
                }
                assert(buffer@ =~= filled(old(buffer)@, rep.bytes@, n as int));
                Ok(n)
            },
        }
    }
}

impl WriteRequest {
    /// Completes the write with what the operating system reported: the number
    /// of bytes it wrote, never more than were handed to it; a short write is a
    /// success.
    pub fn complete(&self, report: Result<usize, OsError>) -> (r: Result<usize, ProcessError>)
        ensures
            match report {
                Err(e) => r == Err::<usize, ProcessError>(ProcessError::MemoryAccessFailed(Some(e))),
                Ok(count) => r == Ok::<usize, ProcessError>(
                    min(count as int, self.data@.len() as int) as usize,
                ),
            },
            r is Ok ==> r->Ok_0 <= self.data@.len(),
    {
        match report {
            Err(e) => Err(ProcessError::MemoryAccessFailed(Some(e))),
            Ok(count) => {
                if count <= self.data.len() {
                    Ok(count)
                } else {
                    Ok(self.data.len())
                }
            },
        }
    }
}

impl ProcessMemory {
    /// Takes the outcome of the operating system's open call for `pid`.
    /// Succeeds only with a valid handle value; any failure of the call is a
    /// `HandleAcquisitionFailed` that carries it.
    pub fn safe_new(pid: u32, opened: Result<NativeHandle, OsError>) -> (r: Result<
        ProcessMemory,
        ProcessError,
    >)
        ensures
            match opened {
                Err(e) => r == Err::<ProcessMemory, ProcessError>(
                    ProcessError::HandleAcquisitionFailed(Some(e)),
                ),
                Ok(h) => if h.spec_is_invalid() {
                    r == Err::<ProcessMemory, ProcessError>(
                        ProcessError::HandleAcquisitionFailed(None),
                    )
                } else {
                    &&& r is Ok
                    &&& r->Ok_0@ == HandleModel { pid, handle: h, open: true }
                },
            },
            r is Ok ==> r->Ok_0@.wf() && r->Ok_0@.open,
    {
        match opened {
            Err(e) => Err(ProcessError::HandleAcquisitionFailed(Some(e))),
            Ok(h) => {
                if h.is_invalid() {
                    Err(ProcessError::HandleAcquisitionFailed(None))
                } else {
                    Ok(ProcessMemory { pid, handle: h, state: HandleState::Opened })
                }
            },
        }
    }

    /// The identifier of the target process.
    pub fn pid(&self) -> (r: u32)
        ensures
            r == self@.pid,
    {
        self.pid
    }

    /// Whether the handle is still open.
    pub fn is_open(&self) -> (r: bool)
        ensures
            r == self@.open,
    {
        self.state == HandleState::Opened
    }

    /// Asks for a read of `size` bytes at `base_addr`; only an open handle
    /// permits one.
    pub fn safe_read(&self, base_addr: u64, size: usize) -> (r: Result<ReadRequest, ProcessError>)
        ensures
            self@.open ==> r == Ok::<ReadRequest, ProcessError>(
                ReadRequest { handle: self@.handle, address: base_addr, size },
            ),
            !self@.open ==> r == Err::<ReadRequest, ProcessError>(
                ProcessError::MemoryAccessFailed(None),
            ),
    {
        if self.state == HandleState::Opened {
            Ok(ReadRequest { handle: self.handle, address: base_addr, size })
        } else {
            Err(ProcessError::MemoryAccessFailed(None))
        }
    }

    /// Asks for a write of `data` at `base_addr`; only an open handle permits
    /// one. The bytes handed to the operating system are exactly `data`.
    pub fn safe_write(&self, base_addr: u64, data: &Vec<u8>) -> (r: Result<WriteRequest, ProcessError>)
        ensures
            self@.open ==> r is Ok && r->Ok_0.handle == self@.handle && r->Ok_0.address == base_addr
                && r->Ok_0.data@ == data@,
            !self@.open ==> r == Err::<WriteRequest, ProcessError>(
                ProcessError::MemoryAccessFailed(None),
            ),
    {
        if self.state == HandleState::Opened {
            Ok(WriteRequest { handle: self.handle, address: base_addr, data: data.clone() })
        } else {
            Err(ProcessError::MemoryAccessFailed(None))
        }
    }

    /// Closes the handle. The first call on an open handle moves it to the
    /// closed state and hands out the handle value, which the caller then
    /// releases; every later call changes nothing and hands out nothing.
    pub fn close(&mut self) -> (r: Option<NativeHandle>)
        requires
            old(self)@.wf(),
        ensures
            r == old(self)@.released(),
            final(self)@ == old(self)@.closed(),
            final(self)@.wf(),
            r is Some ==> !r->Some_0.spec_is_invalid(),
    {
        if self.state == HandleState::Opened {
            self.state = HandleState::Closed;
            Some(self.handle)
        } else {
            None
        }
    }

    /// What a release outcome means: a failure of the operating system's
    /// release call is a `ReleaseFailed`, to be reported and not escalated.
    pub fn release_outcome(released: Result<(), OsError>) -> (r: Result<(), ProcessError>)
        ensures
            match released {
                Ok(()) => r == Ok::<(), ProcessError>(()),
                Err(e) => r == Err::<(), ProcessError>(ProcessError::ReleaseFailed(e)),
            },
    {
        match released {
            Ok(()) => Ok(()),
            Err(e) => Err(ProcessError::ReleaseFailed(e)),
        }
    }
}

/// Closing is idempotent: a second `close` leaves the state as the first left
/// it and hands out nothing, so a handle is released at most once.
pub proof fn lemma_close_idempotent(m: HandleModel)
    requires
        m.wf(),
    ensures
        m.closed().closed() == m.closed(),
        m.closed().released() is None,
        m.closed().wf(),
{
}

/// Write then read at the same address and size: when the read brings back, in
/// full, the bytes that the write handed over (nothing else wrote there in
/// between), the caller's buffer then holds exactly those bytes.
pub proof fn lemma_write_then_read(
    write: WriteRequest,
    read: ReadRequest,
    report: ReadReport,
    buffer: Seq<u8>,
)
    requires
        read.handle == write.handle,
        read.address == write.address,
        read.size == write.data@.len(),
        buffer.len() == read.size,
        report.bytes@ == write.data@,
        report.count == write.data@.len(),
    ensures
        read_count(read, report, buffer.len() as int) == write.data@.len(),
        filled(buffer, report.bytes@, write.data@.len() as int) == write.data@,
{
    assert(filled(buffer, report.bytes@, write.data@.len() as int) =~= write.data@);
}

/// The same round trip for a value: a value written as its four bytes and read
/// back in full into a four-byte buffer decodes to the value written.
pub proof fn lemma_value_round_trip(
    v: u32,
    write: WriteRequest,
    read: ReadRequest,
    report: ReadReport,
    buffer: Seq<u8>,
)
    requires
        write.data@ == le_bytes(v),
        read.handle == write.handle,
        read.address == write.address,
        read.size == 4,
        buffer.len() == 4,
        report.bytes@ == write.data@,
        report.count == 4,
    ensures
        read_count(read, report, 4) == 4,
        le_value(filled(buffer, report.bytes@, 4)) == v,
{
    lemma_decode_encode(v);
    lemma_write_then_read(write, read, report, buffer);
}

} // verus!
