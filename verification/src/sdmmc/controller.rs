//! What to make of each answer of the file system while a record is looked
//! up, read in full, written in full or copied.

use vstd::prelude::*;
use crate::error::{AppError, ControllerError};

verus! {

/// Where a transfer in several calls stands after one of them.
#[derive(Clone, Copy, Debug, PartialEq, Eq)]
pub enum Progress {
    /// Call again; so many bytes are done.
    Continue(usize),
    /// The transfer is over, with so many bytes done or with a fault.
    Done(Result<usize, AppError>),
}

/// What to do next while a record is copied.
#[derive(Clone, Copy, Debug, PartialEq, Eq)]
pub enum CopyStep {
    /// Write so many bytes of the chunk just read, then read on.
    Write(usize),
    /// Close both records; the copy is complete.
    Finish,
    /// Close both records and give the fault up.
    Fail(AppError),
}

/// Whether a record exists, from the answer to a lookup: a record that is
/// not found is no fault.
pub open spec fn spec_found(lookup: Result<(), ControllerError>) -> Result<bool, AppError> {
    match lookup {
        Ok(_) => Ok(true),
        Err(ControllerError::FileNotFound) => Ok(false),
        Err(fault) => Err(AppError::SdMmcController(fault)),
    }
}

/// Whether the record exists, from the answer to a lookup of its name.
pub fn is_file_exists(lookup: Result<(), ControllerError>) -> (exists: Result<bool, AppError>)
    ensures
        exists == spec_found(lookup),
{
    match lookup {
        Ok(_) => Ok(true),
        Err(ControllerError::FileNotFound) => Ok(false),
        Err(fault) => Err(AppError::from_controller(fault)),
    }
}

/// Whether a record was deleted, from the answer to its deletion: there is
/// nothing to delete where none is found.
pub fn delete_file(deletion: Result<(), ControllerError>) -> (deleted: Result<bool, AppError>)
    ensures
        deleted == spec_found(deletion),
{
    match deletion {
        Ok(_) => Ok(true),
        Err(ControllerError::FileNotFound) => Ok(false),
        Err(fault) => Err(AppError::from_controller(fault)),
    }
}

/// The smaller of two counts.
pub open spec fn least(a: int, b: int) -> int {
    if a <= b {
        a
    } else {
        b
    }
}

/// A read in full after one read call that was asked for the `capacity -
/// size_read` bytes still missing. The bytes read count towards the total,
/// never beyond the capacity. The read is over once the capacity is
/// reached, once a call brings nothing, or at the end of the record, which
/// is no fault; any other fault ends it as a fault.
pub open spec fn spec_try_read_all(
    size_read: usize,
    capacity: usize,
    outcome: Result<usize, AppError>,
) -> Progress {
    match outcome {
        Ok(size) => {
            let total = least(size_read + size, capacity as int);
            if size == 0 || total >= capacity {
                Progress::Done(Ok(total as usize))
            } else {
                Progress::Continue(total as usize)
            }
        },
        Err(AppError::SdMmcController(ControllerError::EndOfFile)) => Progress::Done(Ok(size_read)),
        Err(fault) => Progress::Done(Err(fault)),
    }
}

pub fn try_read_all(size_read: usize, capacity: usize, outcome: Result<usize, AppError>) -> (progress:
    Progress)
    requires
        size_read <= capacity,
    ensures
        progress == spec_try_read_all(size_read, capacity, outcome),
{
    match outcome {
        Ok(size) => {
            let total = if size >= capacity - size_read {
                capacity
            } else {
                size_read + size
            };
            if size == 0 || total >= capacity {
                Progress::Done(Ok(total))
            } else {
                Progress::Continue(total)
            }
        },
        Err(AppError::SdMmcController(ControllerError::EndOfFile)) => Progress::Done(Ok(size_read)),
        Err(fault) => Progress::Done(Err(fault)),
    }
}

/// A write in full after one write call that was given the `len - written`
/// bytes still to go. The bytes written count towards the total, never
/// beyond `len`; the write is over once the total is `len`, and a fault ends
/// it as a fault.
pub open spec fn spec_write_all(
    written: usize,
    len: usize,
    outcome: Result<usize, AppError>,
) -> Progress {
    match outcome {
        Ok(size) => {
            let total = least(written + size, len as int);
            if total >= len {
                Progress::Done(Ok(total as usize))
            } else {
                Progress::Continue(total as usize)
            }
        },
        Err(fault) => Progress::Done(Err(fault)),
    }
}

pub fn write_all(written: usize, len: usize, outcome: Result<usize, AppError>) -> (progress: Progress)
    requires
        written <= len,
    ensures
        progress == spec_write_all(written, len, outcome),
{
    match outcome {
        Ok(size) => {
            let total = if size >= len - written {
                len
            } else {
                written + size
            };
            if total >= len {
                Progress::Done(Ok(total))
            } else {
                Progress::Continue(total)
            }
        },
        Err(fault) => Progress::Done(Err(fault)),
    }
}

/// A copy after one read of the source: a chunk is written, an empty chunk
/// or the end of the record completes the copy, any other fault fails it.
pub open spec fn spec_copy_file(chunk: Result<usize, ControllerError>) -> CopyStep {
    match chunk {
        Ok(size) => if size == 0 {
            CopyStep::Finish
        } else {
            CopyStep::Write(size)
        },
        Err(ControllerError::EndOfFile) => CopyStep::Finish,
        Err(fault) => CopyStep::Fail(AppError::SdMmcController(fault)),
    }
}

pub fn copy_file(chunk: Result<usize, ControllerError>) -> (step: CopyStep)
    ensures
        step == spec_copy_file(chunk),
{
    match chunk {
        Ok(size) => {
            if size == 0 {
                CopyStep::Finish
            } else {
                CopyStep::Write(size)
            }
        },
        Err(ControllerError::EndOfFile) => CopyStep::Finish,
        Err(fault) => CopyStep::Fail(AppError::from_controller(fault)),
    }
}

/// A read in full never counts more bytes than the buffer takes, and goes on
/// only while it makes headway.
pub proof fn lemma_try_read_all(size_read: usize, capacity: usize, outcome: Result<usize, AppError>)
    requires
        size_read <= capacity,
    ensures
        match spec_try_read_all(size_read, capacity, outcome) {
            Progress::Continue(total) => size_read < total < capacity,
            Progress::Done(Ok(total)) => size_read <= total <= capacity,
            Progress::Done(Err(_)) => outcome is Err,
        },
{
}

/// A write in full never counts more bytes than it was given, goes on only
/// while it makes headway or the call took nothing, and ends without a fault
/// only when every byte is written.
pub proof fn lemma_write_all(written: usize, len: usize, outcome: Result<usize, AppError>)
    requires
        written <= len,
    ensures
        match spec_write_all(written, len, outcome) {
            Progress::Continue(total) => written <= total < len,
            Progress::Done(Ok(total)) => total == len,
            Progress::Done(Err(_)) => outcome is Err,
        },
{
}

} // verus!
