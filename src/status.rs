use vstd::prelude::*;

verus! {

/// Status codes surfaced to clients.
#[derive(Clone, Copy, Debug, PartialEq, Eq, Structural)]
pub enum Status {
    Success,
    VersionMismatch,
    AuthenticationFailed,
    ProviderNotFound,
    OperationNotSupported,
    MalformedBody,
    KeyNotFound,
    AlreadyExists,
    /// A value does not fit the encoding the remote side expects.
    InvalidEncoding,
    /// A failure reported by a backend, carried as its numeric PSA status.
    Backend(i32),
}

/// Failures reported by the remote secure partition.
#[derive(Clone, Copy, Debug, PartialEq, Eq, Structural)]
pub enum RemoteError {
    DoesNotExist,
    AlreadyExists,
    Other(i32),
}

pub open spec fn status_of_remote(e: RemoteError) -> Status {
    match e {
        RemoteError::DoesNotExist => Status::KeyNotFound,
        RemoteError::AlreadyExists => Status::AlreadyExists,
        RemoteError::Other(c) => Status::Backend(c),
    }
}

impl Status {
    /// The client-facing status for a failure of the remote side.
    pub fn from_remote(e: RemoteError) -> (r: Status)
        ensures
            r == status_of_remote(e),
    {
        match e {
            RemoteError::DoesNotExist => Status::KeyNotFound,
            RemoteError::AlreadyExists => Status::AlreadyExists,
            RemoteError::Other(c) => Status::Backend(c),
        }
    }
}

} // verus!
