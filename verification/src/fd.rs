//! File descriptors.

use vstd::prelude::*;

use crate::error::{unsupported, IoError};

verus! {

/// An owned descriptor of an open file.
#[derive(Debug)]
pub struct FileDesc {
    fd: i32,
}

impl FileDesc {
    /// The descriptor number.
    pub closed spec fn fd_spec(&self) -> i32 {
        self.fd
    }

    /// Takes ownership of a descriptor number.
    pub fn new(fd: i32) -> (r: FileDesc)
        ensures
            r.fd_spec() == fd,
    {
        FileDesc { fd }
    }

    /// The descriptor number, the descriptor staying owned.
    pub fn raw(&self) -> (r: i32)
        ensures
            r == self.fd_spec(),
    {
        self.fd
    }

    /// The descriptor number, borrowed.
    pub fn as_inner(&self) -> (r: &i32)
        ensures
            *r == self.fd_spec(),
    {
        &self.fd
    }

    /// Gives up ownership and hands back the descriptor number.
    pub fn into_raw(self) -> (r: i32)
        ensures
            r == self.fd_spec(),
    {
        self.fd
    }

    /// How many bytes one read or write call moves at most for a buffer of
    /// `len` bytes: the length, capped at the largest value of `ssize_t`.
    pub fn io_len(len: usize) -> (r: usize)
        ensures
            r == (if len <= isize::MAX { len as int } else { isize::MAX as int }),
    {
        if len <= (isize::MAX as usize) {
            len
        } else {
            isize::MAX as usize
        }
    }

    /// Duplicating a descriptor is not offered.
    pub fn duplicate(&self) -> (r: Result<FileDesc, IoError>)
        ensures
            r is Err,
            r matches Err(e) && e == IoError::Unsupported(crate::error::Unsupported::Operation),
    {
        self.duplicate_path(&[])
    }

    /// Duplicating a descriptor under a path is not offered.
    pub fn duplicate_path(&self, _path: &[u8]) -> (r: Result<FileDesc, IoError>)
        ensures
            r matches Err(e) && e == IoError::Unsupported(crate::error::Unsupported::Operation),
    {
        unsupported()
    }

    /// Descriptors are always blocking here.
    pub fn nonblocking(&self) -> (r: Result<bool, IoError>)
        ensures
            r == Ok::<bool, IoError>(false),
    {
        Ok(false)
    }

    /// Close-on-exec cannot be set.
    pub fn set_cloexec(&self) -> (r: Result<(), IoError>)
        ensures
            r matches Err(e) && e == IoError::Unsupported(crate::error::Unsupported::Operation),
    {
        unsupported()
    }

    /// Non-blocking mode cannot be set.
    pub fn set_nonblocking(&self, _nonblocking: bool) -> (r: Result<(), IoError>)
        ensures
            r matches Err(e) && e == IoError::Unsupported(crate::error::Unsupported::Operation),
    {
        unsupported()
    }
}

} // verus!
