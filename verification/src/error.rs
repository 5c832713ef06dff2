//! The unified failure type of the interception pipeline: one tagged union
//! spanning the three failure origins, each carrying its cause message.

use vstd::prelude::*;

verus! {

/// Spec-level model of a dispatch failure: the origin tag and the cause
/// message as a sequence of characters.
pub enum ErrorModel {
    Extraction(Seq<char>),
    Lookup(Seq<char>),
    Storage(Seq<char>),
}

/// A failure of the interception pipeline, tagged with its origin.
///
/// A failure of the wrapped handler itself is never represented here: such an
/// error is passed through to the host pipeline verbatim and is not wrapped.
#[derive(Debug)]
pub enum DispatchError {
    /// No usable client address could be derived from the request context.
    Extraction(String),
    /// The external lookup of the client address failed.
    Lookup(String),
    /// The storage sink reported a failure for the resolved record.
    Storage(String),
}

impl View for DispatchError {
    type V = ErrorModel;

    open spec fn view(&self) -> ErrorModel {
        match self {
            DispatchError::Extraction(m) => ErrorModel::Extraction(m@),
            DispatchError::Lookup(m) => ErrorModel::Lookup(m@),
            DispatchError::Storage(m) => ErrorModel::Storage(m@),
        }
    }
}

impl ErrorModel {
    /// The cause message of a failure, whatever its origin.
    pub open spec fn message(self) -> Seq<char> {
        match self {
            ErrorModel::Extraction(m) => m,
            ErrorModel::Lookup(m) => m,
            ErrorModel::Storage(m) => m,
        }
    }
}

impl DispatchError {
    /// The human-readable cause carried by this error.
    pub fn message(&self) -> (m: &String)
        ensures
            m@ == self@.message(),
    {
        match self {
            DispatchError::Extraction(m) => m,
            DispatchError::Lookup(m) => m,
            DispatchError::Storage(m) => m,
        }
    }

    /// Whether this failure arose while deriving the client address.
    pub fn is_extraction(&self) -> (b: bool)
        ensures
            b == (self@ is Extraction),
    {
        match self {
            DispatchError::Extraction(_) => true,
            _ => false,
        }
    }

    /// Whether this failure arose in the external lookup.
    pub fn is_lookup(&self) -> (b: bool)
        ensures
            b == (self@ is Lookup),
    {
        match self {
            DispatchError::Lookup(_) => true,
            _ => false,
        }
    }

    /// Whether this failure was reported by the storage sink.
    pub fn is_storage(&self) -> (b: bool)
        ensures
            b == (self@ is Storage),
    {
        match self {
            DispatchError::Storage(_) => true,
            _ => false,
        }
    }
}

} // verus!
