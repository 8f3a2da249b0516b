//! The numbers that the platform's C library defines and that the logic of
//! this crate works with. They differ from one C library to another, so the
//! crate reads them from `libc` once and carries them as plain values.

use vstd::prelude::*;


verus! {

#[verifier::external_type_specification]
#[verifier::external_body]
pub struct ExPath(std::path::Path);

#[verifier::external_type_specification]
#[verifier::external_body]
pub struct ExPathBuf(std::path::PathBuf);

#[verifier::external_type_specification]
#[verifier::external_body]
pub struct ExSystemTime(std::time::SystemTime);

/// The flag values of `open(2)`, and the error numbers of an invalid argument
/// and of an interrupted call.
#[derive(Debug, Clone, Copy, PartialEq, Eq, Structural)]
pub struct OpenFlagBits {
    pub rdonly: i32,
    pub wronly: i32,
    pub rdwr: i32,
    pub append: i32,
    pub creat: i32,
    pub trunc: i32,
    pub excl: i32,
    pub cloexec: i32,
    pub accmode: i32,
    pub einval: i32,
    pub eintr: i32,
}

/// The file-type bits of a mode: the mask and the values for a directory,
/// a regular file and a symbolic link.
#[derive(Debug, Clone, Copy, PartialEq, Eq, Structural)]
pub struct ModeBits {
    pub fmt: u32,
    pub dir: u32,
    pub reg: u32,
    pub lnk: u32,
}

impl OpenFlagBits {
    /// The shape that every C library of `libc` gives these flags: the three
    /// access modes lie inside the access-mode mask, and the other flags outside it.
    pub open spec fn well_formed(self) -> bool {
        &&& self.rdonly & self.accmode == self.rdonly
        &&& self.wronly & self.accmode == self.wronly
        &&& self.rdwr & self.accmode == self.rdwr
        &&& self.append & self.accmode == 0
        &&& self.creat & self.accmode == 0
        &&& self.trunc & self.accmode == 0
        &&& self.excl & self.accmode == 0
        &&& self.cloexec & self.accmode == 0
    }
}

/// Reads `libc::O_RDONLY`, `O_WRONLY`, `O_RDWR`, `O_APPEND`, `O_CREAT`,
/// `O_TRUNC`, `O_EXCL`, `O_CLOEXEC`, `O_ACCMODE`, `EINVAL` and `EINTR`. Their
/// values differ from one target to another, so no value is claimed; what is
/// claimed is the shape that every target of `libc` defining all of them
/// gives them: the three access modes inside `O_ACCMODE`, the other flags
/// outside it.
#[verifier::external_body]
pub(crate) fn libc_open_flag_bits() -> (r: OpenFlagBits)
    ensures
        r.well_formed(),
{
    OpenFlagBits {
        rdonly: libc::O_RDONLY,
        wronly: libc::O_WRONLY,
        rdwr: libc::O_RDWR,
        append: libc::O_APPEND,
        creat: libc::O_CREAT,
        trunc: libc::O_TRUNC,
        excl: libc::O_EXCL,
        cloexec: libc::O_CLOEXEC,
        accmode: libc::O_ACCMODE,
        einval: libc::EINVAL,
        eintr: libc::EINTR,
    }
}

/// The file-type bits that every C library of `libc` defines alike.
pub open spec fn posix_mode_bits() -> ModeBits {
    ModeBits { fmt: 0o170000, dir: 0o040000, reg: 0o100000, lnk: 0o120000 }
}

/// Reads `libc::S_IFMT`, `S_IFDIR`, `S_IFREG` and `S_IFLNK`, each converted
/// to `u32`. Every target of `libc` that defines all four gives them the
/// values 0o170000, 0o040000, 0o100000 and 0o120000.
#[verifier::external_body]
pub(crate) fn libc_mode_bits() -> (r: ModeBits)
    ensures
        r == posix_mode_bits(),
{
    ModeBits {
        fmt: libc::S_IFMT as u32,
        dir: libc::S_IFDIR as u32,
        reg: libc::S_IFREG as u32,
        lnk: libc::S_IFLNK as u32,
    }
}

/// The `whence` values of `lseek(2)`.
#[derive(Debug, Clone, Copy, PartialEq, Eq, Structural)]
pub struct SeekWhence {
    pub set: i32,
    pub cur: i32,
    pub end: i32,
}

/// Reads `libc::SEEK_SET`, `SEEK_CUR` and `SEEK_END`, which every target of
/// `libc` defines as 0, 1 and 2.
#[verifier::external_body]
pub(crate) fn libc_seek_whence() -> (r: SeekWhence)
    ensures
        r == (SeekWhence { set: 0, cur: 1, end: 2 }),
{
    SeekWhence { set: libc::SEEK_SET, cur: libc::SEEK_CUR, end: libc::SEEK_END }
}

} // verus!
