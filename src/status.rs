//! The engine's integer status codes and the library's error taxonomy.
use vstd::prelude::*;

verus! {

/// Status the engine uses for success.
pub const STATUS_OK: u32 = 0;

/// Status the engine uses for a failure of file or stream I/O.
pub const FILE_IO_ERROR: u32 = 0x1016;

/// Status the engine uses when a stream has no more bytes to give.
pub const STREAM_EOF: u32 = 0x1058;

/// Why an operation on the engine failed.
#[derive(Debug, Clone, Copy, PartialEq, Eq, Structural)]
pub enum Error {
    /// The engine answered with this non-zero status.
    NativeStatus(u32),
    /// A read, write or seek on the host's byte source or sink failed.
    IoFailure,
    /// The engine returned no handle; this is the error it recorded then.
    NullHandle(u32),
    /// The engine returned no handle and recorded no error.
    Unknown,
}

/// The result that a status code stands for.
pub open spec fn status_result(status: u32) -> Result<(), Error> {
    if status == STATUS_OK {
        Ok(())
    } else {
        Err(Error::NativeStatus(status))
    }
}

/// The error that a missing handle stands for, given the engine's last error.
pub open spec fn missing_handle_error(last_error: u32) -> Error {
    if last_error == STATUS_OK {
        Error::Unknown
    } else {
        Error::NullHandle(last_error)
    }
}

/// The error of a font load that gave no font: the host's own I/O failure
/// where a read or seek on the font's source failed, else the error that the
/// engine recorded.
pub open spec fn load_error(read_failed: bool, last_error: u32) -> Error {
    if read_failed {
        Error::IoFailure
    } else {
        missing_handle_error(last_error)
    }
}

impl Error {
    /// Turns a status returned by the engine into a result.
    pub fn from_status(status: u32) -> (r: Result<(), Error>)
        ensures
            r == status_result(status),
    {
        if status == STATUS_OK {
            Ok(())
        } else {
            Err(Error::NativeStatus(status))
        }
    }

    /// The error for an entry point that returned no handle, from the error
    /// code that the engine recorded for the document.
    pub fn from_last_error(last_error: u32) -> (e: Error)
        ensures
            e == missing_handle_error(last_error),
    {
        if last_error == STATUS_OK {
            Error::Unknown
        } else {
            Error::NullHandle(last_error)
        }
    }

    /// The error of a font load that gave no font, from whether the stream's
    /// source failed and from the error that the engine recorded.
    pub fn from_load_failure(read_failed: bool, last_error: u32) -> (e: Error)
        ensures
            e == load_error(read_failed, last_error),
    {
        if read_failed {
            Error::IoFailure
        } else {
            Error::from_last_error(last_error)
        }
    }
}

} // verus!
