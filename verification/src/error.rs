//! The error values of the platform layer.

use vstd::prelude::*;

verus! {

/// Why an operation is not available on this platform.
#[derive(Debug, Clone, Copy, PartialEq, Eq, Structural)]
pub enum Unsupported {
    /// The operation as a whole is missing.
    Operation,
    /// Files carry no modification time.
    ModifiedTime,
    /// Files carry no access time.
    AccessedTime,
    /// Files carry no creation time.
    CreationTime,
}

/// An I/O error as the platform layer reports it.
#[derive(Debug, Clone, Copy, PartialEq, Eq, Structural)]
pub enum IoError {
    /// An error number of the operating system.
    Os(i32),
    /// An operation that the platform does not offer.
    Unsupported(Unsupported),
    /// A path that holds a NUL byte, which no C string can carry.
    NulInFileName,
}

impl Unsupported {
    /// The message that goes with the reason.
    pub fn message(&self) -> (r: &'static str)
        ensures
            *self == Unsupported::Operation ==> r@ == "operation not supported on this platform"@,
            *self == Unsupported::ModifiedTime
                ==> r@ == "modified time is not available on this platform currently"@,
            *self == Unsupported::AccessedTime
                ==> r@ == "accessed time is not available on this platform currently"@,
            *self == Unsupported::CreationTime
                ==> r@ == "creation time is not available on this platform currently"@,
    {
        match self {
            Unsupported::Operation => "operation not supported on this platform",
            Unsupported::ModifiedTime => "modified time is not available on this platform currently",
            Unsupported::AccessedTime => "accessed time is not available on this platform currently",
            Unsupported::CreationTime => "creation time is not available on this platform currently",
        }
    }
}

impl IoError {
    /// The operating system's error number, where the error carries one.
    pub fn raw_os_error(&self) -> (r: Option<i32>)
        ensures
            r == (match *self {
                IoError::Os(code) => Some(code),
                _ => None,
            }),
    {
        match self {
            IoError::Os(code) => Some(*code),
            _ => None,
        }
    }

    /// The message of the error for a path with a NUL byte.
    pub fn nul_in_file_name_message() -> (r: &'static str)
        ensures
            r@ == "file name contained an unexpected NUL byte"@,
    {
        "file name contained an unexpected NUL byte"
    }
}

/// The answer of every operation that the platform does not offer.
pub fn unsupported<T>() -> (r: Result<T, IoError>)
    ensures
        r == Err::<T, IoError>(IoError::Unsupported(Unsupported::Operation)),
{
    Err(IoError::Unsupported(Unsupported::Operation))
}

/// Reads the return value of a system call: `-1` means failure, with the
/// error number that the call left behind; any other value is the result.
pub fn cvt(ret: i64, last_errno: i32) -> (r: Result<i64, IoError>)
    ensures
        ret == -1 ==> r == Err::<i64, IoError>(IoError::Os(last_errno)),
        ret != -1 ==> r == Ok::<i64, IoError>(ret),
{
    if ret == -1 {
        Err(IoError::Os(last_errno))
    } else {
        Ok(ret)
    }
}

/// One round of retrying a system call that an interrupt cut short: an
/// interrupted call (error number `eintr`) is made again (`None`); any other
/// result is final.
pub fn retry_step(result: Result<i64, IoError>, eintr: i32) -> (r: Option<Result<i64, IoError>>)
    ensures
        result == Err::<i64, IoError>(IoError::Os(eintr)) ==> r is None,
        result != Err::<i64, IoError>(IoError::Os(eintr)) ==> r == Some(result),
{
    match result {
        Err(IoError::Os(code)) => {
            if code == eintr {
                None
            } else {
                Some(Err(IoError::Os(code)))
            }
        },
        other => Some(other),
    }
}

} // verus!
