use vstd::prelude::*;
use crate::error::{error_of, Error, AVERROR_EOF};
use crate::io_context::IoContextParams;
use crate::memory_io::MemoryIo;
use vstd::string::StringSliceAdditionalSpecFns;

verus! {

/// Size of the transfer buffer of the bridges that `Io` builds.
pub const IO_BUFFER_SIZE: usize = 32768;

/// Flag of an output format that writes no file of its own.
pub const AVFMT_NOFILE: i32 = 0x0001;

/// Where a container's bytes come from.
pub enum Io<D> {
    /// A path that the container library opens itself.
    File(String),
    /// The user's data behind an I/O bridge.
    Custom {
        data: D,
        params: IoContextParams,
        /// Optional file name, used to infer the container format.
        file_name: Option<String>,
    },
}

impl<D> Io<D> {
    /// A read-only source without seeking.
    pub fn from_reader(reader: D, file_name: Option<String>) -> (r: Io<D>)
        ensures
            r == (Io::Custom {
                data: reader,
                params: IoContextParams::Read { seekable: false, buffer_size: IO_BUFFER_SIZE },
                file_name,
            }),
    {
        Io::Custom {
            data: reader,
            params: IoContextParams::Read { seekable: false, buffer_size: IO_BUFFER_SIZE },
            file_name,
        }
    }

    /// A read-only source that can seek.
    pub fn from_seekable(reader: D, file_name: Option<String>) -> (r: Io<D>)
        ensures
            r == (Io::Custom {
                data: reader,
                params: IoContextParams::Read { seekable: true, buffer_size: IO_BUFFER_SIZE },
                file_name,
            }),
    {
        Io::Custom {
            data: reader,
            params: IoContextParams::Read { seekable: true, buffer_size: IO_BUFFER_SIZE },
            file_name,
        }
    }

    /// A source that the container library opens by path.
    pub fn from_file(path: &str) -> (r: Result<Io<D>, Error>)
        ensures
            r matches Ok(Io::File(p)) && p@ == path@,
    {
        Ok(Io::File(path.to_owned()))
    }
}

impl Io<MemoryIo> {
    /// A seekable source over bytes held in memory.
    pub fn from_bytes(bytes: Vec<u8>, file_name: Option<String>) -> (r: Io<MemoryIo>)
        ensures
            r matches Io::Custom { data, params, file_name: f } && data.contents() == bytes@
                && data.position() == 0 && params == (IoContextParams::Read {
                seekable: true,
                buffer_size: IO_BUFFER_SIZE,
            }) && f == file_name,
    {
        Io::from_seekable(MemoryIo::new(bytes), file_name)
    }
}

/// Maps a status of the codec library: negative is the error it stands for.
pub fn check_status(ret: i32) -> (r: Result<(), Error>)
    ensures
        ret >= 0 ==> r is Ok,
        ret < 0 ==> r == Err::<(), Error>(error_of(ret)),
{
    if ret < 0 {
        Err(Error::new(ret))
    } else {
        Ok(())
    }
}

/// The outcome of opening a container for reading: a negative status means the
/// source is missing, unrecognized or truncated.
pub fn check_open(ret: i32) -> (r: Result<(), Error>)
    ensures
        ret >= 0 ==> r is Ok,
        ret < 0 ==> r == Err::<(), Error>(Error::Open(ret)),
{
    if ret < 0 {
        Err(Error::Open(ret))
    } else {
        Ok(())
    }
}

/// The outcome of reading the streams' information: a negative status means
/// it could not be determined.
pub fn check_probe(ret: i32) -> (r: Result<(), Error>)
    ensures
        ret >= 0 ==> r is Ok,
        ret < 0 ==> r == Err::<(), Error>(Error::Probe(ret)),
{
    if ret < 0 {
        Err(Error::Probe(ret))
    } else {
        Ok(())
    }
}

/// The outcome of reading a packet: `true` for a packet, `false` at the end of
/// the input (which is no error), or the error.
pub fn packet_read_result(ret: i32) -> (r: Result<bool, Error>)
    ensures
        ret >= 0 ==> r == Ok::<bool, Error>(true),
        ret == AVERROR_EOF ==> r == Ok::<bool, Error>(false),
        ret < 0 && ret != AVERROR_EOF ==> r == Err::<bool, Error>(error_of(ret)),
{
    if ret < 0 {
        if ret == AVERROR_EOF {
            Ok(false)
        } else {
            Err(Error::new(ret))
        }
    } else {
        Ok(true)
    }
}

/// A container's duration in microseconds, where it is known (not negative).
pub fn duration_micros(raw: i64) -> (r: Option<u64>)
    ensures
        raw < 0 ==> r is None,
        raw >= 0 ==> r == Some(raw as u64),
{
    if raw < 0 {
        None
    } else {
        Some(raw as u64)
    }
}

/// Whether an output format with these flags needs its file opened by the caller.
pub fn needs_file(format_flags: i32) -> (r: bool)
    ensures
        r == (format_flags & AVFMT_NOFILE == 0),
{
    format_flags & AVFMT_NOFILE == 0
}

/// Checks that `s` can be handed to the library as a C string: it must not
/// hold a nul byte.
pub fn check_c_string(s: &str) -> (r: Result<(), Error>)
    ensures
        r is Ok <==> !s.spec_bytes().contains(0u8),
        r matches Err(e) ==> e is NulByte,
{
    let bytes = s.as_bytes();
    let mut i: usize = 0;
    while i < bytes.len()
        invariant
            bytes@ == s.spec_bytes(),
            0 <= i <= bytes@.len(),
            forall|j: int| 0 <= j < i ==> bytes@[j] != 0u8,
        decreases bytes@.len() - i,
    {
        if bytes[i] == 0 {
            assert(bytes@[i as int] == 0u8);
            return Err(Error::NulByte);
        }
        i = i + 1;
    }
    Ok(())
}

} // verus!
