use magma::encoder::EncodeError;
use magma::error::Error;
use magma::error::IoErrorKind;
use magma::error::PlatformError;
use magma::protocol::MagmaStatus;

#[test]
fn error_statuses() {
    assert_eq!(MagmaStatus::from(Error::AccessDenied), MagmaStatus::AccessDenied);
    assert_eq!(MagmaStatus::from(Error::BadState), MagmaStatus::InternalError);
    assert_eq!(MagmaStatus::from(Error::ConnectionLost), MagmaStatus::InternalError);
    assert_eq!(MagmaStatus::from(Error::ContextKilled), MagmaStatus::ContextKilled);
    assert_eq!(MagmaStatus::from(Error::InternalError), MagmaStatus::InternalError);
    assert_eq!(MagmaStatus::from(Error::InvalidArgs), MagmaStatus::InvalidArgs);
    assert_eq!(MagmaStatus::from(Error::MemoryError), MagmaStatus::MemoryError);
    assert_eq!(MagmaStatus::from(Error::TimedOut), MagmaStatus::TimedOut);
    assert_eq!(MagmaStatus::from(Error::Unimplemented), MagmaStatus::Unimplemented);
}

#[test]
fn platform_error_statuses() {
    let p = |e: PlatformError| MagmaStatus::from(Error::PlatformError(e));
    assert_eq!(p(PlatformError::InvalidMagmaHandle), MagmaStatus::InvalidArgs);
    assert_eq!(p(PlatformError::NulError), MagmaStatus::InvalidArgs);
    assert_eq!(p(PlatformError::ParseIntError), MagmaStatus::InvalidArgs);
    assert_eq!(p(PlatformError::TryFromIntError), MagmaStatus::InvalidArgs);
    assert_eq!(p(PlatformError::Utf8Error), MagmaStatus::InvalidArgs);
    assert_eq!(p(PlatformError::Unsupported), MagmaStatus::Unimplemented);
    assert_eq!(p(PlatformError::WithContext), MagmaStatus::InternalError);
    assert_eq!(p(PlatformError::IoError(IoErrorKind::InvalidInput)), MagmaStatus::InvalidArgs);
    assert_eq!(p(PlatformError::IoError(IoErrorKind::InvalidData)), MagmaStatus::InvalidArgs);
    assert_eq!(p(PlatformError::IoError(IoErrorKind::OutOfMemory)), MagmaStatus::MemoryError);
    assert_eq!(p(PlatformError::IoError(IoErrorKind::TimedOut)), MagmaStatus::TimedOut);
    assert_eq!(p(PlatformError::IoError(IoErrorKind::WouldBlock)), MagmaStatus::TimedOut);
    assert_eq!(p(PlatformError::IoError(IoErrorKind::PermissionDenied)), MagmaStatus::AccessDenied);
    assert_eq!(p(PlatformError::IoError(IoErrorKind::Unsupported)), MagmaStatus::Unimplemented);
    assert_eq!(p(PlatformError::IoError(IoErrorKind::Other)), MagmaStatus::InternalError);
}

#[test]
fn errno_statuses() {
    let p = |e: i32| MagmaStatus::from(Error::PlatformError(PlatformError::RustixError(e)));
    assert_eq!(p(22), MagmaStatus::InvalidArgs);
    assert_eq!(p(12), MagmaStatus::MemoryError);
    assert_eq!(p(110), MagmaStatus::TimedOut);
    assert_eq!(p(11), MagmaStatus::TimedOut);
    assert_eq!(p(62), MagmaStatus::TimedOut);
    assert_eq!(p(13), MagmaStatus::AccessDenied);
    assert_eq!(p(1), MagmaStatus::AccessDenied);
    assert_eq!(p(38), MagmaStatus::Unimplemented);
    assert_eq!(p(95), MagmaStatus::Unimplemented);
    assert_eq!(p(2), MagmaStatus::InternalError);
}

#[test]
fn error_numbers_are_negative() {
    assert_eq!(i32::from(Error::InternalError), -1);
    assert_eq!(i32::from(Error::InvalidArgs), -2);
    assert_eq!(i32::from(Error::AccessDenied), -3);
    assert_eq!(i32::from(Error::MemoryError), -4);
    assert_eq!(i32::from(Error::ContextKilled), -5);
    assert_eq!(i32::from(Error::TimedOut), -6);
    assert_eq!(i32::from(Error::Unimplemented), -7);
    assert_eq!(MagmaStatus::Success.raw(), 0);
}

#[test]
fn encode_errors_become_io_errors() {
    assert_eq!(
        Error::from(EncodeError::InvalidData),
        Error::PlatformError(PlatformError::IoError(IoErrorKind::InvalidData))
    );
    assert_eq!(Error::from(EncodeError::WriteZero), Error::PlatformError(PlatformError::IoError(IoErrorKind::Other)));
    assert_eq!(
        Error::from(EncodeError::UnexpectedEof),
        Error::PlatformError(PlatformError::IoError(IoErrorKind::Other))
    );
}
