//! Errors of the library and their translation into the status codes that
//! cross the API boundary.
use vstd::prelude::*;

use crate::encoder::EncodeError;
use crate::protocol::MagmaStatus;

verus! {

/// Linux `EPERM`.
pub const ERRNO_PERM: i32 = 1;
/// Linux `EAGAIN`.
pub const ERRNO_AGAIN: i32 = 11;
/// Linux `ENOMEM`.
pub const ERRNO_NOMEM: i32 = 12;
/// Linux `EACCES`.
pub const ERRNO_ACCESS: i32 = 13;
/// Linux `EINVAL`.
pub const ERRNO_INVAL: i32 = 22;
/// Linux `ENOSYS`.
pub const ERRNO_NOSYS: i32 = 38;
/// Linux `ETIME`.
pub const ERRNO_TIME: i32 = 62;
/// Linux `EOPNOTSUPP`.
pub const ERRNO_OPNOTSUPP: i32 = 95;
/// Linux `ETIMEDOUT`.
pub const ERRNO_TIMEDOUT: i32 = 110;

/// The kinds of I/O error that the status translation tells apart.
#[derive(Debug, Clone, Copy, PartialEq, Eq, Structural)]
pub enum IoErrorKind {
    InvalidInput,
    InvalidData,
    OutOfMemory,
    TimedOut,
    WouldBlock,
    PermissionDenied,
    Unsupported,
    /// Any other kind.
    Other,
}

/// An error reported by the platform layer.
#[derive(Debug, Clone, Copy, PartialEq, Eq, Structural)]
pub enum PlatformError {
    /// An OS handle was not valid.
    InvalidMagmaHandle,
    /// An input/output error, by kind.
    IoError(IoErrorKind),
    /// A string held an interior nul byte.
    NulError,
    /// Parsing an integer failed.
    ParseIntError,
    /// A system call failed with this errno.
    RustixError(i32),
    /// Converting an integer failed.
    TryFromIntError,
    /// The operation is not supported.
    Unsupported,
    /// A string was not valid UTF-8.
    Utf8Error,
    /// Any other failure.
    WithContext,
}

/// An error of the library.
#[derive(Debug, Clone, Copy, PartialEq, Eq, Structural)]
pub enum Error {
    AccessDenied,
    BadState,
    ConnectionLost,
    ContextKilled,
    InternalError,
    InvalidArgs,
    MemoryError,
    PlatformError(PlatformError),
    TimedOut,
    Unimplemented,
}

/// The status that an I/O error of kind `k` is reported as.
pub open spec fn io_kind_status(k: IoErrorKind) -> MagmaStatus {
    match k {
        IoErrorKind::InvalidInput | IoErrorKind::InvalidData => MagmaStatus::InvalidArgs,
        IoErrorKind::OutOfMemory => MagmaStatus::MemoryError,
        IoErrorKind::TimedOut | IoErrorKind::WouldBlock => MagmaStatus::TimedOut,
        IoErrorKind::PermissionDenied => MagmaStatus::AccessDenied,
        IoErrorKind::Unsupported => MagmaStatus::Unimplemented,
        IoErrorKind::Other => MagmaStatus::InternalError,
    }
}

/// The status that a failed system call with errno `e` is reported as.
pub open spec fn errno_status(e: i32) -> MagmaStatus {
    if e == ERRNO_INVAL {
        MagmaStatus::InvalidArgs
    } else if e == ERRNO_NOMEM {
        MagmaStatus::MemoryError
    } else if e == ERRNO_TIMEDOUT || e == ERRNO_AGAIN || e == ERRNO_TIME {
        MagmaStatus::TimedOut
    } else if e == ERRNO_ACCESS || e == ERRNO_PERM {
        MagmaStatus::AccessDenied
    } else if e == ERRNO_NOSYS || e == ERRNO_OPNOTSUPP {
        MagmaStatus::Unimplemented
    } else {
        MagmaStatus::InternalError
    }
}

/// The status that `e` is reported as.
pub open spec fn error_status(e: Error) -> MagmaStatus {
    match e {
        Error::AccessDenied => MagmaStatus::AccessDenied,
        Error::BadState => MagmaStatus::InternalError,
        Error::ConnectionLost => MagmaStatus::InternalError,
        Error::ContextKilled => MagmaStatus::ContextKilled,
        Error::InternalError => MagmaStatus::InternalError,
        Error::InvalidArgs => MagmaStatus::InvalidArgs,
        Error::MemoryError => MagmaStatus::MemoryError,
        Error::TimedOut => MagmaStatus::TimedOut,
        Error::Unimplemented => MagmaStatus::Unimplemented,
        Error::PlatformError(p) => match p {
            PlatformError::InvalidMagmaHandle | PlatformError::NulError
            | PlatformError::ParseIntError | PlatformError::TryFromIntError
            | PlatformError::Utf8Error => MagmaStatus::InvalidArgs,
            PlatformError::IoError(k) => io_kind_status(k),
            PlatformError::RustixError(errno) => errno_status(errno),
            PlatformError::Unsupported => MagmaStatus::Unimplemented,
            PlatformError::WithContext => MagmaStatus::InternalError,
        },
    }
}

fn io_kind_to_status(k: IoErrorKind) -> (s: MagmaStatus)
    ensures
        s == io_kind_status(k),
{
    match k {
        IoErrorKind::InvalidInput | IoErrorKind::InvalidData => MagmaStatus::InvalidArgs,
        IoErrorKind::OutOfMemory => MagmaStatus::MemoryError,
        IoErrorKind::TimedOut | IoErrorKind::WouldBlock => MagmaStatus::TimedOut,
        IoErrorKind::PermissionDenied => MagmaStatus::AccessDenied,
        IoErrorKind::Unsupported => MagmaStatus::Unimplemented,
        IoErrorKind::Other => MagmaStatus::InternalError,
    }
}

fn errno_to_status(e: i32) -> (s: MagmaStatus)
    ensures
        s == errno_status(e),
{
    if e == ERRNO_INVAL {
        MagmaStatus::InvalidArgs
    } else if e == ERRNO_NOMEM {
        MagmaStatus::MemoryError
    } else if e == ERRNO_TIMEDOUT || e == ERRNO_AGAIN || e == ERRNO_TIME {
        MagmaStatus::TimedOut
    } else if e == ERRNO_ACCESS || e == ERRNO_PERM {
        MagmaStatus::AccessDenied
    } else if e == ERRNO_NOSYS || e == ERRNO_OPNOTSUPP {
        MagmaStatus::Unimplemented
    } else {
        MagmaStatus::InternalError
    }
}

impl From<Error> for MagmaStatus {
    fn from(e: Error) -> (s: MagmaStatus) {
        match e {
            Error::AccessDenied => MagmaStatus::AccessDenied,
            Error::BadState => MagmaStatus::InternalError,
            Error::ConnectionLost => MagmaStatus::InternalError,
            Error::ContextKilled => MagmaStatus::ContextKilled,
            Error::InternalError => MagmaStatus::InternalError,
            Error::InvalidArgs => MagmaStatus::InvalidArgs,
            Error::MemoryError => MagmaStatus::MemoryError,
            Error::TimedOut => MagmaStatus::TimedOut,
            Error::Unimplemented => MagmaStatus::Unimplemented,
            Error::PlatformError(p) => match p {
                PlatformError::InvalidMagmaHandle | PlatformError::NulError
                | PlatformError::ParseIntError | PlatformError::TryFromIntError
                | PlatformError::Utf8Error => MagmaStatus::InvalidArgs,
                PlatformError::IoError(k) => io_kind_to_status(k),
                PlatformError::RustixError(errno) => errno_to_status(errno),
                PlatformError::Unsupported => MagmaStatus::Unimplemented,
                PlatformError::WithContext => MagmaStatus::InternalError,
            },
        }
    }
}

impl vstd::std_specs::convert::FromSpecImpl<Error> for MagmaStatus {
    open spec fn obeys_from_spec() -> bool {
        true
    }

    open spec fn from_spec(e: Error) -> MagmaStatus {
        error_status(e)
    }
}

impl From<Error> for i32 {
    fn from(e: Error) -> (r: i32) {
        let s = MagmaStatus::from(e);
        s.raw()
    }
}

impl vstd::std_specs::convert::FromSpecImpl<Error> for i32 {
    open spec fn obeys_from_spec() -> bool {
        true
    }

    open spec fn from_spec(e: Error) -> i32 {
        error_status(e).spec_raw()
    }
}

/// The error that a failed encoding is reported as: the I/O error of the
/// same kind (invalid data, or, for a full buffer, an I/O error of another
/// kind).
pub open spec fn encode_error(e: EncodeError) -> Error {
    match e {
        EncodeError::InvalidData => Error::PlatformError(PlatformError::IoError(IoErrorKind::InvalidData)),
        EncodeError::WriteZero => Error::PlatformError(PlatformError::IoError(IoErrorKind::Other)),
        EncodeError::UnexpectedEof => Error::PlatformError(PlatformError::IoError(IoErrorKind::Other)),
    }
}

impl From<EncodeError> for Error {
    fn from(e: EncodeError) -> (r: Error) {
        match e {
            EncodeError::InvalidData => Error::PlatformError(PlatformError::IoError(IoErrorKind::InvalidData)),
            EncodeError::WriteZero => Error::PlatformError(PlatformError::IoError(IoErrorKind::Other)),
            EncodeError::UnexpectedEof => Error::PlatformError(PlatformError::IoError(IoErrorKind::Other)),
        }
    }
}

impl vstd::std_specs::convert::FromSpecImpl<EncodeError> for Error {
    open spec fn obeys_from_spec() -> bool {
        true
    }

    open spec fn from_spec(e: EncodeError) -> Error {
        encode_error(e)
    }
}

/// Every error is reported as a failure: no error maps to `Success`.
pub proof fn lemma_error_is_never_success(e: Error)
    ensures
        error_status(e) != MagmaStatus::Success,
        error_status(e).spec_raw() < 0,
{
}

} // verus!
