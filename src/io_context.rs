use vstd::prelude::*;
use crate::error::AVERROR_EOF;

verus! {

/// Where a seek is measured from, and how far.
#[derive(Debug, Clone, Copy, PartialEq, Eq, Structural)]
pub enum SeekTarget {
    /// An absolute position.
    Start(u64),
    /// Relative to the current position.
    Current(i64),
    /// Relative to the end.
    End(i64),
}

/// The source or sink behind an I/O bridge, supplied by the user: the read,
/// write and seek callbacks over the user's own data. An operation that the
/// bridge's parameters leave out is never called.
pub trait IoHandler {
    /// Fills the front of `buf`; returns the number of bytes placed, 0 at the end.
    fn read(&mut self, buf: &mut [u8]) -> Result<usize, std::io::Error>;

    /// Takes bytes from the front of `buf`; returns how many were taken.
    fn write(&mut self, buf: &[u8]) -> Result<usize, std::io::Error>;

    /// Moves the position; returns the new position from the start.
    fn seek(&mut self, pos: SeekTarget) -> Result<u64, std::io::Error>;
}

/// Which operations an I/O bridge offers, and the size of its transfer buffer.
#[derive(Debug, Clone, Copy, PartialEq, Eq, Structural)]
pub enum IoContextParams {
    Read { seekable: bool, buffer_size: usize },
    Write { seekable: bool, buffer_size: usize },
    ReadWrite { seekable: bool, buffer_size: usize },
}

impl IoContextParams {
    pub open spec fn spec_readable(self) -> bool {
        self is Read || self is ReadWrite
    }

    pub open spec fn spec_writable(self) -> bool {
        self is Write || self is ReadWrite
    }

    pub open spec fn spec_seekable(self) -> bool {
        match self {
            IoContextParams::Read { seekable, .. } => seekable,
            IoContextParams::Write { seekable, .. } => seekable,
            IoContextParams::ReadWrite { seekable, .. } => seekable,
        }
    }

    pub open spec fn spec_buffer_size(self) -> usize {
        match self {
            IoContextParams::Read { buffer_size, .. } => buffer_size,
            IoContextParams::Write { buffer_size, .. } => buffer_size,
            IoContextParams::ReadWrite { buffer_size, .. } => buffer_size,
        }
    }
}

/// What the container library is handed when the bridge is registered: the
/// transfer buffer's size, the write flag, and which callbacks are installed.
#[derive(Debug, Clone, Copy, PartialEq, Eq, Structural)]
pub struct IoRegistration {
    pub buffer_size: i32,
    pub write_flag: i32,
    pub read: bool,
    pub write: bool,
    pub seek: bool,
}

/// The long-lived block behind a custom byte source or sink: the user's data
/// with its callbacks, which operations are offered, the transfer buffer's size,
/// and whether the end of input has been reported.
pub struct IoContext<D> {
    data: D,
    readable: bool,
    writable: bool,
    seekable: bool,
    buffer_size: i32,
    eof: bool,
}

/// What the read callback gave back, as the bridge sees it: a byte count, or a
/// failure with the operating system's error code if it had one.
#[derive(Debug, Clone, Copy, PartialEq, Eq, Structural)]
pub enum Transfer {
    Done(usize),
    Failed(Option<i32>),
}

/// The status reported for a failure: the negated OS error code, or -1.
/// An OS code whose negation would read as the end-of-file sentinel is
/// reported as -1, so that a failure is never taken for the end of input.
pub open spec fn failure_code(os_code: Option<i32>) -> i32 {
    match os_code {
        Some(c) => if c > 0 && -c != AVERROR_EOF {
            (-c) as i32
        } else {
            -1i32
        },
        None => -1i32,
    }
}

/// The status a read reports: end of file for zero bytes, the count for a
/// count that fits the buffer, and an error otherwise.
pub open spec fn spec_read_code(t: Transfer, capacity: usize) -> i32 {
    match t {
        Transfer::Done(n) => if n == 0 {
            AVERROR_EOF
        } else if n <= capacity && n <= i32::MAX {
            n as i32
        } else {
            -1i32
        },
        Transfer::Failed(os) => failure_code(os),
    }
}

/// The status a write reports: the count for a count that fits the buffer,
/// an error otherwise.
pub open spec fn spec_write_code(t: Transfer, capacity: usize) -> i32 {
    match t {
        Transfer::Done(n) => if n <= capacity && n <= i32::MAX {
            n as i32
        } else {
            -1i32
        },
        Transfer::Failed(os) => failure_code(os),
    }
}

/// The status for a failure.
pub fn failure_status(os_code: Option<i32>) -> (r: i32)
    ensures
        r == failure_code(os_code),
        r < 0,
        r != AVERROR_EOF,
{
    match os_code {
        Some(c) => if c > 0 && -c != AVERROR_EOF {
            -c
        } else {
            -1
        },
        None => -1,
    }
}

/// Translates what a read callback returned into the container library's
/// convention: a positive count, the end-of-file sentinel, or a negative error.
pub fn read_status(t: Transfer, capacity: usize) -> (r: i32)
    ensures
        r == spec_read_code(t, capacity),
{
    match t {
        Transfer::Done(n) => if n == 0 {
            AVERROR_EOF
        } else if n <= capacity && n <= i32::MAX as usize {
            n as i32
        } else {
            -1
        },
        Transfer::Failed(os) => failure_status(os),
    }
}

/// Translates what a write callback returned into the container library's
/// convention: a non-negative count or a negative error.
pub fn write_status(t: Transfer, capacity: usize) -> (r: i32)
    ensures
        r == spec_write_code(t, capacity),
{
    match t {
        Transfer::Done(n) => if n <= capacity && n <= i32::MAX as usize {
            n as i32
        } else {
            -1
        },
        Transfer::Failed(os) => failure_status(os),
    }
}

/// The seek origins `(SEEK_SET, SEEK_CUR, SEEK_END)` of the C library.
pub open spec fn seek_origins_spec() -> (i32, i32, i32) {
    (0, 1, 2)
}

/// Relies on libc's SEEK_SET, SEEK_CUR and SEEK_END constants (0, 1 and 2).
#[verifier::external_body]
fn seek_origins() -> (r: (i32, i32, i32))
    ensures
        r == seek_origins_spec(),
{
    (libc::SEEK_SET, libc::SEEK_CUR, libc::SEEK_END)
}

/// The move that a seek request `(offset, whence)` asks for, if it is one the
/// bridge serves: absolute (the offset taken as unsigned, as the C library
/// passes it), relative, or from the end.
pub open spec fn spec_seek_target(offset: i64, whence: i32) -> Option<SeekTarget> {
    if whence == seek_origins_spec().0 {
        Some(SeekTarget::Start(offset as u64))
    } else if whence == seek_origins_spec().1 {
        Some(SeekTarget::Current(offset))
    } else if whence == seek_origins_spec().2 {
        Some(SeekTarget::End(offset))
    } else {
        None
    }
}

/// Decodes a seek request of the container library.
pub fn seek_target(offset: i64, whence: i32) -> (r: Option<SeekTarget>)
    ensures
        r == spec_seek_target(offset, whence),
{
    let (set, cur, end) = seek_origins();
    if whence == set {
        Some(SeekTarget::Start(offset as u64))
    } else if whence == cur {
        Some(SeekTarget::Current(offset))
    } else if whence == end {
        Some(SeekTarget::End(offset))
    } else {
        None
    }
}

/// The status a seek reports for what the seek callback gave back: the new
/// position where it fits an `i64`, -1 otherwise or on failure.
pub open spec fn spec_seek_code(res: Option<u64>) -> i64 {
    match res {
        Some(p) => if p <= i64::MAX {
            p as i64
        } else {
            -1i64
        },
        None => -1i64,
    }
}

/// Translates what a seek callback returned into the container library's
/// convention.
pub fn seek_status(res: Option<u64>) -> (r: i64)
    ensures
        r == spec_seek_code(res),
{
    match res {
        Some(p) => if p <= i64::MAX as u64 {
            p as i64
        } else {
            -1
        },
        None => -1,
    }
}

/// Relies on std::io::Error::raw_os_error: the operating system's code in the
/// error, if it came from one.
#[verifier::external_body]
fn os_error_code(e: &std::io::Error) -> (r: Option<i32>) {
    e.raw_os_error()
}

impl<D> IoContext<D> {
    pub closed spec fn spec_data(&self) -> D {
        self.data
    }

    pub closed spec fn spec_readable(&self) -> bool {
        self.readable
    }

    pub closed spec fn spec_writable(&self) -> bool {
        self.writable
    }

    pub closed spec fn spec_seekable(&self) -> bool {
        self.seekable
    }

    pub closed spec fn spec_buffer_size(&self) -> i32 {
        self.buffer_size
    }

    /// Whether the end of input has been reported to the container library.
    pub closed spec fn spec_eof(&self) -> bool {
        self.eof
    }

    /// Bundles the user's data with the operations that `params` offers. The
    /// transfer buffer's size must fit the library's C `int`.
    pub fn new(data: D, params: IoContextParams) -> (r: IoContext<D>)
        requires
            params.spec_buffer_size() <= i32::MAX,
        ensures
            r.spec_data() == data,
            r.spec_readable() == params.spec_readable(),
            r.spec_writable() == params.spec_writable(),
            r.spec_seekable() == params.spec_seekable(),
            r.spec_buffer_size() == params.spec_buffer_size(),
            !r.spec_eof(),
    {
        let (readable, writable, seekable, buffer_size) = match params {
            IoContextParams::Read { seekable, buffer_size } => (true, false, seekable, buffer_size),
            IoContextParams::Write { seekable, buffer_size } => (false, true, seekable, buffer_size),
            IoContextParams::ReadWrite { seekable, buffer_size } => (
                true,
                true,
                seekable,
                buffer_size,
            ),
        };
        IoContext { data, readable, writable, seekable, buffer_size: buffer_size as i32, eof: false }
    }

    /// What to hand the container library: the write flag is set exactly when
    /// the bridge writes, and a callback is installed for each offered operation.
    pub fn registration(&self) -> (r: IoRegistration)
        ensures
            r.buffer_size == self.spec_buffer_size(),
            r.write_flag == (if self.spec_writable() { 1i32 } else { 0i32 }),
            r.read == self.spec_readable(),
            r.write == self.spec_writable(),
            r.seek == self.spec_seekable(),
    {
        IoRegistration {
            buffer_size: self.buffer_size,
            write_flag: if self.writable { 1 } else { 0 },
            read: self.readable,
            write: self.writable,
            seek: self.seekable,
        }
    }

    pub fn data(&self) -> (r: &D)
        ensures
            *r == self.spec_data(),
    {
        &self.data
    }

    pub fn into_data(self) -> (r: D)
        ensures
            r == self.spec_data(),
    {
        self.data
    }
}

impl<D: IoHandler> IoContext<D> {
    /// The read trampoline's work: asks the read callback to fill `buf` and
    /// reports the result in the library's convention. Once the end has been
    /// reported, later reads report it again without calling the callback.
    pub fn read_packet(&mut self, buf: &mut [u8]) -> (r: i32)
        ensures
            !old(self).spec_readable() ==> r == -1 && *final(self) == *old(self),
            old(self).spec_readable() && old(self).spec_eof() ==> r == AVERROR_EOF && *final(self)
                == *old(self),
            r == AVERROR_EOF || r < 0 || 0 < r <= old(buf)@.len(),
            old(self).spec_readable() ==> final(self).spec_eof() == (r == AVERROR_EOF),
            final(self).spec_readable() == old(self).spec_readable(),
            final(self).spec_writable() == old(self).spec_writable(),
            final(self).spec_seekable() == old(self).spec_seekable(),
            final(self).spec_buffer_size() == old(self).spec_buffer_size(),
    {
        if !self.readable {
            return -1;
        }
        if self.eof {
            return AVERROR_EOF;
        }
        let capacity = buf.len();
        let t = match self.data.read(buf) {
            Ok(n) => Transfer::Done(n),
            Err(e) => Transfer::Failed(os_error_code(&e)),
        };
        let r = read_status(t, capacity);
        if r == AVERROR_EOF {
            self.eof = true;
        }
        r
    }

    /// The write trampoline's work: hands `buf` to the write callback and
    /// reports the count taken, or an error.
    pub fn write_packet(&mut self, buf: &[u8]) -> (r: i32)
        ensures
            !old(self).spec_writable() ==> r == -1 && *final(self) == *old(self),
            r < 0 || r <= buf@.len(),
            final(self).spec_eof() == old(self).spec_eof(),
            final(self).spec_readable() == old(self).spec_readable(),
            final(self).spec_writable() == old(self).spec_writable(),
            final(self).spec_seekable() == old(self).spec_seekable(),
            final(self).spec_buffer_size() == old(self).spec_buffer_size(),
    {
        if !self.writable {
            return -1;
        }
        let t = match self.data.write(buf) {
            Ok(n) => Transfer::Done(n),
            Err(e) => Transfer::Failed(os_error_code(&e)),
        };
        write_status(t, buf.len())
    }

    /// The seek trampoline's work: decodes the request, moves the user's
    /// position, and returns the new position or -1 (as `seek_status` maps the
    /// callback's result). A successful move clears the end-of-input mark.
    pub fn seek(&mut self, offset: i64, whence: i32) -> (r: i64)
        ensures
            exists|res: Option<u64>| r == #[trigger] spec_seek_code(res),
            (!old(self).spec_seekable() || spec_seek_target(offset, whence) is None) ==> r == -1
                && *final(self) == *old(self),
            r >= -1,
            final(self).spec_eof() == (old(self).spec_eof() && r == -1),
            final(self).spec_readable() == old(self).spec_readable(),
            final(self).spec_writable() == old(self).spec_writable(),
            final(self).spec_seekable() == old(self).spec_seekable(),
            final(self).spec_buffer_size() == old(self).spec_buffer_size(),
    {
        if !self.seekable {
            return seek_status(None);
        }
        let target = match seek_target(offset, whence) {
            Some(t) => t,
            None => return seek_status(None),
        };
        let res = match self.data.seek(target) {
            Ok(pos) => Some(pos),
            Err(_) => None,
        };
        let r = seek_status(res);
        if r != -1 {
            self.eof = false;
        }
        r
    }
}

} // verus!
