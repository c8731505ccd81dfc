use vstd::prelude::*;

verus! {

/// The classification of an operating-system I/O failure that callers act on.
#[derive(Clone, Copy, Debug, PartialEq, Eq, Structural)]
pub enum IoErrorKind {
    /// The file (or a directory on its path) does not exist.
    NotFound,
    /// The operating system refused access.
    PermissionDenied,
    /// Any other I/O failure.
    Other,
}

/// The single error kind of a storage backend: a wrapped I/O failure.
#[derive(Clone, Copy, Debug, PartialEq, Eq, Structural)]
pub enum BackendError {
    Io(IoErrorKind),
}

impl BackendError {
    /// The I/O classification this error carries.
    pub fn kind(&self) -> (r: IoErrorKind)
        ensures
            *self == BackendError::Io(r),
    {
        match self {
            BackendError::Io(k) => *k,
        }
    }
}

/// What a backend operation returns.
pub type BackendResult<T> = Result<T, BackendError>;

} // verus!
