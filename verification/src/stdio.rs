//! The standard streams.

use vstd::prelude::*;

use crate::error::IoError;
use crate::fd::FileDesc;

verus! {

/// The descriptor numbers of the standard streams.
#[derive(Debug, Clone, Copy, PartialEq, Eq, Structural)]
pub struct StdFds {
    pub stdin: i32,
    pub stdout: i32,
    pub stderr: i32,
}

/// Reads `libc::STDIN_FILENO`, `STDOUT_FILENO` and `STDERR_FILENO`, which
/// every target of `libc` that defines them defines as 0, 1 and 2.
#[verifier::external_body]
fn libc_std_fds() -> (r: StdFds)
    ensures
        r == (StdFds { stdin: 0, stdout: 1, stderr: 2 }),
{
    StdFds { stdin: libc::STDIN_FILENO, stdout: libc::STDOUT_FILENO, stderr: libc::STDERR_FILENO }
}

/// The size of the buffer that standard input is read through.
pub const STDIN_BUF_SIZE: usize = 8192;

/// Standard input.
pub struct Stdin(());

/// Standard output.
pub struct Stdout(());

/// Standard error.
pub struct Stderr(());

impl Stdin {
    pub fn new() -> Stdin {
        Stdin(())
    }

    /// The descriptor that standard input is read from; it is not owned and
    /// must not be closed.
    pub fn file_desc(&self) -> (r: FileDesc)
        ensures
            r.fd_spec() == 0,
    {
        FileDesc::new(libc_std_fds().stdin)
    }
}

impl Stdout {
    pub fn new() -> Stdout {
        Stdout(())
    }

    /// The descriptor that standard output is written to; it is not owned
    /// and must not be closed.
    pub fn file_desc(&self) -> (r: FileDesc)
        ensures
            r.fd_spec() == 1,
    {
        FileDesc::new(libc_std_fds().stdout)
    }

    /// Writes are not buffered, so flushing always succeeds at once.
    pub fn flush(&mut self) -> (r: Result<(), IoError>)
        ensures
            r == Ok::<(), IoError>(()),
            *final(self) == *old(self),
    {
        Ok(())
    }
}

impl Stderr {
    pub fn new() -> Stderr {
        Stderr(())
    }

    /// The descriptor that standard error is written to; it is not owned
    /// and must not be closed.
    pub fn file_desc(&self) -> (r: FileDesc)
        ensures
            r.fd_spec() == 2,
    {
        FileDesc::new(libc_std_fds().stderr)
    }

    /// Writes are not buffered, so flushing always succeeds at once.
    pub fn flush(&mut self) -> (r: Result<(), IoError>)
        ensures
            r == Ok::<(), IoError>(()),
            *final(self) == *old(self),
    {
        Ok(())
    }
}

/// Every error on a standard stream is taken for a closed stream, and so ignored.
pub fn is_ebadf(_err: &IoError) -> (r: bool)
    ensures
        r,
{
    true
}

/// Panic messages go to standard error.
pub fn panic_output() -> (r: Option<Stderr>)
    ensures
        r is Some,
{
    Some(Stderr::new())
}

} // verus!
