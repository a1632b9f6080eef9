//! Result codes of the key-value engine that sits between the storage
//! services and the flash partition.

use vstd::prelude::*;

verus! {

/// How an engine operation ended when it did not fail.
#[derive(Debug, Clone, Copy, PartialEq, Eq)]
pub enum SuccessCode {
    /// The operation is complete and flash was left untouched.
    Complete,
    /// Every change has reached flash.
    Written,
    /// The last write was handed to the flash controller and is still to be
    /// performed.
    Queued,
}

/// Why an engine operation stopped.
#[derive(Debug, Clone, Copy, PartialEq, Eq)]
pub enum ErrorCode {
    /// An object header carries a version this engine does not know.
    UnsupportedVersion,
    /// Stored data is inconsistent.
    CorruptData,
    /// The checksum of an object does not match its contents.
    InvalidCheckSum,
    /// No valid object carries the requested key.
    KeyNotFound,
    /// A valid object with this key is already stored.
    KeyAlreadyExists,
    /// The page that should take the object is full.
    RegionFull,
    /// No page can take the object.
    FlashFull,
    /// A page could not be read.
    ReadFail,
    /// Bytes could not be programmed.
    WriteFail,
    /// A page could not be erased.
    EraseFail,
    /// The object exceeds the engine's size limit.
    ObjectTooLarge,
    /// The caller's buffer cannot hold the value, whose length is given.
    BufferTooSmall(usize),
    /// The engine asked for a page read that has not been performed yet.
    ReadNotReady(usize),
    /// The engine asked for a write that has not been performed yet.
    WriteNotReady(usize),
    /// The engine asked for a page erase that has not been performed yet.
    EraseNotReady(usize),
}

/// What the engine's step function hands back.
pub type EngineResult = Result<SuccessCode, ErrorCode>;

impl ErrorCode {
    /// Whether the code asks for flash I/O rather than reporting an outcome.
    pub open spec fn not_ready(self) -> bool {
        self is ReadNotReady || self is WriteNotReady || self is EraseNotReady
    }

    /// Tells a request for flash I/O from a terminal error.
    pub fn is_not_ready(&self) -> (b: bool)
        ensures
            b == self.not_ready(),
    {
        match self {
            ErrorCode::ReadNotReady(_) | ErrorCode::WriteNotReady(_) | ErrorCode::EraseNotReady(_) => true,
            _ => false,
        }
    }
}

} // verus!
