//! The decisions of a write stream through which the engine pushes a saved
//! document into a host byte sink.
use vstd::prelude::*;

use crate::status::{status_result, Error, FILE_IO_ERROR, STATUS_OK};

verus! {

/// The state of the write stream of one save: whether a write on the host's
/// sink has failed. It lives only as long as the save call.
pub struct WriterBridge {
    failed: bool,
}

impl View for WriterBridge {
    type V = bool;

    /// Whether a write has failed.
    closed spec fn view(&self) -> bool {
        self.failed
    }
}

/// The outcome of a save, from whether a write on the sink failed and from the
/// status that the engine's save returned. A failed write is reported as the
/// host's own I/O failure, which the engine's status alone cannot tell apart
/// from its other file errors.
pub open spec fn save_result(write_failed: bool, status: u32) -> Result<(), Error> {
    if write_failed {
        Err(Error::IoFailure)
    } else {
        status_result(status)
    }
}

impl WriterBridge {
    /// The bridge for a save that has written nothing yet.
    pub fn new() -> (w: WriterBridge)
        ensures
            !w@,
    {
        WriterBridge { failed: false }
    }

    /// Takes in whether the sink took all the bytes of one push, and gives the
    /// status that the push returns to the engine.
    pub fn record_write(&mut self, written: bool) -> (status: u32)
        ensures
            status == if written { STATUS_OK } else { FILE_IO_ERROR },
            final(self)@ == (old(self)@ || !written),
    {
        if written {
            STATUS_OK
        } else {
            self.failed = true;
            FILE_IO_ERROR
        }
    }

    /// The result of the save, once the engine's save has returned `status`.
    pub fn finish(&self, status: u32) -> (r: Result<(), Error>)
        ensures
            r == save_result(self@, status),
    {
        if self.failed {
            Err(Error::IoFailure)
        } else {
            Error::from_status(status)
        }
    }
}

} // verus!
