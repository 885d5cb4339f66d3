use vstd::prelude::*;

verus! {

/// The failure taxonomy surfaced at the boundary.
#[derive(PartialEq, Eq, Structural, Clone, Copy, Debug)]
pub enum ErrorKind {
    InvalidArgument,
    IoError,
    ConnectionError,
    NotFound,
    AlreadyExists,
    PermissionDenied,
    BrokerError,
    Timeout,
    StreamEnded,
}

/// A failure of an adapter call, with what is needed to describe it.
#[derive(Clone, Debug)]
pub enum AdapterError {
    /// A compression symbol outside `none | gzip | snappy | lz4`.
    UnsupportedCompression(String),
    /// An offset kind outside `from_beginning | from_end | absolute`.
    UnsupportedOffsetKind(String),
    /// An absolute offset below zero.
    NegativeOffset(i64),
    /// A topic request with an empty name or a count below one.
    InvalidTopic,
    /// The smart-module payload could not be compressed.
    Compression(String),
    /// A failure reported by the client library, already classified.
    Client(ErrorKind, String),
    /// The consumer stream has no further records.
    StreamEnded,
}

pub open spec fn kind_of(e: AdapterError) -> ErrorKind {
    match e {
        AdapterError::UnsupportedCompression(_) => ErrorKind::InvalidArgument,
        AdapterError::UnsupportedOffsetKind(_) => ErrorKind::InvalidArgument,
        AdapterError::NegativeOffset(_) => ErrorKind::InvalidArgument,
        AdapterError::InvalidTopic => ErrorKind::InvalidArgument,
        AdapterError::Compression(_) => ErrorKind::IoError,
        AdapterError::Client(k, _) => k,
        AdapterError::StreamEnded => ErrorKind::StreamEnded,
    }
}

impl AdapterError {
    /// The class of this failure.
    pub fn kind(&self) -> (k: ErrorKind)
        ensures
            k == kind_of(*self),
    {
        match self {
            AdapterError::UnsupportedCompression(_) => ErrorKind::InvalidArgument,
            AdapterError::UnsupportedOffsetKind(_) => ErrorKind::InvalidArgument,
            AdapterError::NegativeOffset(_) => ErrorKind::InvalidArgument,
            AdapterError::InvalidTopic => ErrorKind::InvalidArgument,
            AdapterError::Compression(_) => ErrorKind::IoError,
            AdapterError::Client(k, _) => *k,
            AdapterError::StreamEnded => ErrorKind::StreamEnded,
        }
    }
}

} // verus!
