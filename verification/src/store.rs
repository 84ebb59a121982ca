//! The document store: what a storage holds, what it answers, and a store in
//! memory that behaves exactly so.
//!
//! A storage holds at most one document, as bytes. Reading an absent document
//! and removing one are reported as [`Fault::NotFound`], as a file system does;
//! what that means for a request is decided elsewhere. A storage may refuse to
//! change, and then it leaves the document as it was.

use vstd::prelude::*;
use crate::error::Fault;

verus! {

/// What a storage holds: the bytes of the document if there is one, and whether
/// the storage refuses changes.
pub struct StoreState {
    pub bytes: Option<Seq<u8>>,
    pub read_only: bool,
}

impl StoreState {
    /// The storage before anything was written to it.
    pub open spec fn empty() -> StoreState {
        StoreState { bytes: None, read_only: false }
    }

    /// What a read reports: the bytes, or that there is no document.
    pub open spec fn read_reply(self) -> Result<Seq<u8>, Fault> {
        match self.bytes {
            Some(bytes) => Ok(bytes),
            None => Err(Fault::NotFound),
        }
    }

    /// What a write reports.
    pub open spec fn write_reply(self) -> Result<(), Fault> {
        if self.read_only {
            Err(Fault::Other)
        } else {
            Ok(())
        }
    }

    /// The storage after a write of `bytes`: the document is present and made
    /// of exactly these bytes, whatever it held before. A refused write changes
    /// nothing.
    pub open spec fn after_write(self, bytes: Seq<u8>) -> StoreState {
        if self.read_only {
            self
        } else {
            StoreState { bytes: Some(bytes), read_only: false }
        }
    }

    /// What a removal reports.
    pub open spec fn remove_reply(self) -> Result<(), Fault> {
        if self.bytes is None {
            Err(Fault::NotFound)
        } else if self.read_only {
            Err(Fault::Other)
        } else {
            Ok(())
        }
    }

    /// The storage after a removal: the document is absent. A refused removal
    /// changes nothing.
    pub open spec fn after_remove(self) -> StoreState {
        if self.read_only {
            self
        } else {
            StoreState { bytes: None, read_only: false }
        }
    }
}

/// The reply to a read, with the document as a sequence of bytes.
pub open spec fn read_view(reply: Result<Vec<u8>, Fault>) -> Result<Seq<u8>, Fault> {
    match reply {
        Ok(bytes) => Ok(bytes@),
        Err(fault) => Err(fault),
    }
}

/// A document store in memory.
pub struct DocumentStore {
    bytes: Option<Vec<u8>>,
    read_only: bool,
}

impl View for DocumentStore {
    type V = StoreState;

    closed spec fn view(&self) -> StoreState {
        StoreState {
            bytes: match self.bytes {
                Some(bytes) => Some(bytes@),
                None => None,
            },
            read_only: self.read_only,
        }
    }
}

impl DocumentStore {
    /// A store without a document, open to changes.
    pub fn new() -> (store: DocumentStore)
        ensures
            store@ == StoreState::empty(),
    {
        DocumentStore { bytes: None, read_only: false }
    }

    /// Makes the store refuse writes and removals, or accept them again.
    pub fn set_read_only(&mut self, read_only: bool)
        ensures
            final(self)@ == (StoreState { bytes: old(self)@.bytes, read_only }),
    {
        self.read_only = read_only;
    }

    /// Reads the document.
    pub fn read(&self) -> (reply: Result<Vec<u8>, Fault>)
        ensures
            read_view(reply) == self@.read_reply(),
    {
        match &self.bytes {
            Some(bytes) => {
                let copy = bytes.clone();
                Ok(copy)
            },
            None => Err(Fault::NotFound),
        }
    }

    /// Writes `bytes` as the whole document.
    pub fn write(&mut self, bytes: Vec<u8>) -> (reply: Result<(), Fault>)
        ensures
            reply == old(self)@.write_reply(),
            final(self)@ == old(self)@.after_write(bytes@),
    {
        if self.read_only {
            Err(Fault::Other)
        } else {
            self.bytes = Some(bytes);
            Ok(())
        }
    }

    /// Removes the document.
    pub fn remove(&mut self) -> (reply: Result<(), Fault>)
        ensures
            reply == old(self)@.remove_reply(),
            final(self)@ == old(self)@.after_remove(),
    {
        if self.bytes.is_none() {
            Err(Fault::NotFound)
        } else if self.read_only {
            Err(Fault::Other)
        } else {
            self.bytes = None;
            Ok(())
        }
    }
}

} // verus!
