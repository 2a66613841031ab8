//! What the device asks of the card, and a card's answer in the abstract.

use vstd::prelude::*;
use crate::error::{AppError, ControllerError, FileError};
use crate::sdmmc::file::FileName;

verus! {

/// One call into the record store. Whoever holds the card performs it and
/// hands the outcome back: the bytes read, or nothing, or the fault.
pub enum Request {
    /// Is a card there and can its volume be opened?
    Probe,
    /// Delete the record if it exists; keep a copy beside it first where
    /// `backup` is set.
    Remove { name: FileName, backup: bool },
    /// Read up to `len` bytes of the record, starting `offset` bytes in.
    Fetch { name: FileName, offset: u32, len: usize },
    /// Add `data` at the end of the record, creating it if need be.
    Append { name: FileName, data: Vec<u8> },
}

/// A request by its content.
pub enum Call {
    Probe,
    Remove { name: Seq<u8>, backup: bool },
    Fetch { name: Seq<u8>, offset: nat, len: nat },
    Append { name: Seq<u8>, data: Seq<u8> },
}

impl View for Request {
    type V = Call;

    open spec fn view(&self) -> Call {
        match self {
            Request::Probe => Call::Probe,
            Request::Remove { name, backup } => Call::Remove { name: name@, backup: *backup },
            Request::Fetch { name, offset, len } => Call::Fetch {
                name: name@,
                offset: *offset as nat,
                len: *len as nat,
            },
            Request::Append { name, data } => Call::Append { name: name@, data: data@ },
        }
    }
}

/// The outcome of a request by its content.
pub type Answer = Result<Seq<u8>, AppError>;

/// The content of an outcome.
pub open spec fn answer_of(outcome: Result<Vec<u8>, AppError>) -> Answer {
    match outcome {
        Ok(bytes) => Ok(bytes@),
        Err(error) => Err(error),
    }
}

/// A card in the abstract: whether it is there, and the bytes of each
/// record by name.
pub struct Card {
    pub attached: bool,
    pub records: Map<Seq<u8>, Seq<u8>>,
}

impl Card {
    /// The card after a call, and the call's outcome. Without a card every
    /// call fails. A removal leaves no record of the name. A fetch needs the
    /// record to exist and the offset to lie within it, and yields the bytes
    /// from the offset on, as many as asked for or as are left. An append
    /// puts the data behind what the record holds.
    pub open spec fn perform(self, call: Call) -> (Card, Answer) {
        if !self.attached {
            (self, Err(AppError::SdmmcDetached))
        } else {
            match call {
                Call::Probe => (self, Ok(Seq::empty())),
                Call::Remove { name, backup } => (
                    Card { records: self.records.remove(name), ..self },
                    Ok(Seq::empty()),
                ),
                Call::Fetch { name, offset, len } => if !self.records.dom().contains(name) {
                    (self, Err(AppError::SdMmcController(ControllerError::FileNotFound)))
                } else if offset > self.records[name].len() {
                    (self, Err(AppError::SdMmcFile(FileError::InvalidOffset)))
                } else {
                    (self, Ok(self.records[name].skip(offset as int).take(
                        if len <= self.records[name].len() - offset {
                            len as int
                        } else {
                            self.records[name].len() - offset
                        },
                    )))
                },
                Call::Append { name, data } => (
                    Card {
                        records: self.records.insert(
                            name,
                            if self.records.dom().contains(name) {
                                self.records[name] + data
                            } else {
                                data
                            },
                        ),
                        ..self
                    },
                    Ok(Seq::empty()),
                ),
            }
        }
    }
}

impl Request {
    /// The name of the record that the request is about, if it is about one.
    pub fn name(&self) -> (name: Option<&FileName>)
        ensures
            match self@ {
                Call::Probe => name is None,
                Call::Remove { name: n, .. } => name is Some && name->0@ == n,
                Call::Fetch { name: n, .. } => name is Some && name->0@ == n,
                Call::Append { name: n, .. } => name is Some && name->0@ == n,
            },
    {
        match self {
            Request::Probe => None,
            Request::Remove { name, .. } => Some(name),
            Request::Fetch { name, .. } => Some(name),
            Request::Append { name, .. } => Some(name),
        }
    }
}

} // verus!
