//! Files, their attributes, permissions and types, and the options they are
//! opened with.

use vstd::prelude::*;

use crate::abi::{
    libc_mode_bits, libc_open_flag_bits, libc_seek_whence, posix_mode_bits, ModeBits, OpenFlagBits,
};
use crate::error::{unsupported, IoError, Unsupported};
use crate::fd::FileDesc;
use vstd::std_specs::cmp::{PartialEqSpec, PartialEqSpecImpl};

verus! {

/// The write bits of a mode, for its owner, its group and everyone else.
pub const WRITE_BITS: u32 = 0o222;

/// A mode is read-only when no class of users may write.
pub open spec fn mode_is_readonly(mode: u32) -> bool {
    mode & WRITE_BITS == 0
}

/// The permission bits of a file.
#[derive(Clone, PartialEq, Eq, Debug, Structural)]
pub struct FilePermissions {
    mode: u32,
}

impl View for FilePermissions {
    type V = u32;

    closed spec fn view(&self) -> u32 {
        self.mode
    }
}

impl FilePermissions {
    /// Permissions with the given mode.
    pub fn from_mode(mode: u32) -> (r: FilePermissions)
        ensures
            r@ == mode,
    {
        FilePermissions { mode }
    }

    /// The mode.
    pub fn mode(&self) -> (r: u32)
        ensures
            r == self@,
    {
        self.mode
    }

    /// Whether no class of users (owner, group, others) may write.
    pub fn readonly(&self) -> (r: bool)
        ensures
            r == mode_is_readonly(self@),
            r == (self@ & 0o222u32 == 0),
    {
        self.mode & 0o222 == 0
    }

    /// Takes write permission away from every class of users, or gives it to
    /// every class; the other bits of the mode stay as they were.
    pub fn set_readonly(&mut self, readonly: bool)
        ensures
            readonly ==> final(self)@ == old(self)@ & !WRITE_BITS,
            !readonly ==> final(self)@ == old(self)@ | WRITE_BITS,
            mode_is_readonly(final(self)@) == readonly,
            final(self)@ & !WRITE_BITS == old(self)@ & !WRITE_BITS,
    {
        let ghost before = self.mode;
        if readonly {
            // remove write permission for all classes; equivalent to `chmod a-w <file>`
            self.mode = self.mode & !0o222;
            assert(before & !0o222u32 & 0o222u32 == 0) by (bit_vector);
            assert(before & !0o222u32 & !0o222u32 == before & !0o222u32) by (bit_vector);
        } else {
            // add write permission for all classes; equivalent to `chmod a+w <file>`
            self.mode = self.mode | 0o222;
            assert((before | 0o222u32) & 0o222u32 != 0) by (bit_vector);
            assert((before | 0o222u32) & !0o222u32 == before & !0o222u32) by (bit_vector);
        }
    }
}

/// Permissions are read-only exactly when no class of users (owner, group,
/// others) has its write bit: any one write bit makes them writable, and the
/// bits outside the permission bits (the file type among them) play no part.
pub proof fn lemma_readonly_means_no_write_bit(mode: u32)
    ensures
        mode_is_readonly(mode) <==> (mode & 0o200u32 == 0 && mode & 0o020u32 == 0 && mode & 0o002u32
            == 0),
        mode & 0o200u32 != 0 ==> !mode_is_readonly(mode),
        mode & 0o020u32 != 0 ==> !mode_is_readonly(mode),
        mode & 0o002u32 != 0 ==> !mode_is_readonly(mode),
        mode_is_readonly(mode) == mode_is_readonly(mode & 0o7777u32),
{
    assert((mode & 0o222u32 == 0) <==> (mode & 0o200u32 == 0 && mode & 0o020u32 == 0 && mode
        & 0o002u32 == 0)) by (bit_vector);
    assert((mode & 0o222u32 == 0) <==> ((mode & 0o7777u32) & 0o222u32 == 0)) by (bit_vector);
}

/// Setting the read-only flag and then reading it gives back what was set,
/// and setting it twice in a row is the same as setting it once.
pub proof fn lemma_set_readonly_roundtrip(mode: u32, readonly: bool)
    ensures
        mode_is_readonly(if readonly { mode & !WRITE_BITS } else { mode | WRITE_BITS }) == readonly,
        readonly ==> (mode & !WRITE_BITS) & !WRITE_BITS == mode & !WRITE_BITS,
        !readonly ==> (mode | WRITE_BITS) | WRITE_BITS == mode | WRITE_BITS,
{
    assert(mode & !0o222u32 & 0o222u32 == 0) by (bit_vector);
    assert((mode | 0o222u32) & 0o222u32 != 0) by (bit_vector);
    assert((mode & !0o222u32) & !0o222u32 == mode & !0o222u32) by (bit_vector);
    assert((mode | 0o222u32) | 0o222u32 == mode | 0o222u32) by (bit_vector);
}

/// The type of a file, read from the type bits of its mode with the
/// platform's values of those bits. The type bits themselves are kept too,
/// as equality and hashing look at them alone.
#[derive(Copy, Clone, Eq, Debug)]
pub struct FileType {
    mode: u32,
    bits: ModeBits,
    type_bits: u32,
}

impl View for FileType {
    /// The mode, the platform's type bits, and the type bits of the mode.
    type V = (u32, ModeBits, u32);

    closed spec fn view(&self) -> (u32, ModeBits, u32) {
        (self.mode, self.bits, self.type_bits)
    }
}

impl FileType {
    /// The kept type bits are those of the mode under the platform's mask.
    #[verifier::type_invariant]
    spec fn type_bits_of_mode(self) -> bool {
        self.type_bits == self.mode & self.bits.fmt
    }

    /// The type bits of the mode, as kept.
    pub open spec fn masked_spec(&self) -> u32 {
        self@.2
    }

    /// Whether the type bits of the mode are `mode`.
    pub open spec fn is_spec(&self, mode: u32) -> bool {
        self.masked_spec() == mode
    }

    /// A file type with the given mode and type bits.
    pub fn from_mode_bits(mode: u32, bits: ModeBits) -> (r: FileType)
        ensures
            r@ == (mode, bits, mode & bits.fmt),
    {
        FileType { mode, bits, type_bits: mode & bits.fmt }
    }

    pub fn is_dir(&self) -> (r: bool)
        ensures
            r == self.is_spec(self@.1.dir),
    {
        self.is(self.bits.dir)
    }

    pub fn is_file(&self) -> (r: bool)
        ensures
            r == self.is_spec(self@.1.reg),
    {
        self.is(self.bits.reg)
    }

    pub fn is_symlink(&self) -> (r: bool)
        ensures
            r == self.is_spec(self@.1.lnk),
    {
        self.is(self.bits.lnk)
    }

    /// Whether the file is of the type whose bits are `mode`.
    pub fn is(&self, mode: u32) -> (r: bool)
        ensures
            r == self.is_spec(mode),
    {
        self.masked() == mode
    }

    /// The type bits of the mode: the mode under the platform's mask.
    pub fn masked(&self) -> (r: u32)
        ensures
            r == self.masked_spec(),
            r == self@.0 & self@.1.fmt,
    {
        proof {
            use_type_invariant(self);
        }
        self.type_bits
    }
}

impl PartialEq for FileType {
    fn eq(&self, other: &Self) -> (r: bool) {
        self.masked() == other.masked()
    }
}

impl PartialEqSpecImpl for FileType {
    open spec fn obeys_eq_spec() -> bool {
        true
    }

    open spec fn eq_spec(&self, other: &FileType) -> bool {
        self.masked_spec() == other.masked_spec()
    }
}

impl core::hash::Hash for FileType {
    /// Hashes the kept type bits alone, the value that equality compares:
    /// feeds that field to `state` through `u32`'s `Hash::hash`. Nothing is
    /// claimed of the call; it stands outside the proofs.
    #[verifier::external_body]
    fn hash<H: core::hash::Hasher>(&self, state: &mut H) {
        self.type_bits.hash(state);
    }
}

/// File types that compare equal have the same kept type bits, which is the
/// one field that `hash` feeds to the hasher.
pub proof fn lemma_equal_file_types_same_kept_bits(a: FileType, b: FileType)
    requires
        PartialEqSpec::eq_spec(&a, &b),
    ensures
        a@.2 == b@.2,
{
}

/// Equality of file types is an equivalence: reflexive, symmetric and transitive.
pub proof fn lemma_file_type_eq_equivalence(a: FileType, b: FileType, c: FileType)
    ensures
        PartialEqSpec::eq_spec(&a, &a),
        PartialEqSpec::eq_spec(&a, &b) ==> PartialEqSpec::eq_spec(&b, &a),
        PartialEqSpec::eq_spec(&a, &b) && PartialEqSpec::eq_spec(&b, &c) ==> PartialEqSpec::eq_spec(&a, &c),
{
}

/// Two file types that compare equal answer every type question alike.
pub proof fn lemma_equal_file_types_agree(a: FileType, b: FileType, mode: u32)
    requires
        PartialEqSpec::eq_spec(&a, &b),
    ensures
        a.is_spec(mode) == b.is_spec(mode),
{
}

/// Where the platform gives directories, regular files and symbolic links
/// distinct type bits, a file is at most one of them.
pub proof fn lemma_file_type_exclusive(t: FileType)
    requires
        t@.1.dir != t@.1.reg,
        t@.1.dir != t@.1.lnk,
        t@.1.reg != t@.1.lnk,
    ensures
        !(t.is_spec(t@.1.dir) && t.is_spec(t@.1.reg)),
        !(t.is_spec(t@.1.dir) && t.is_spec(t@.1.lnk)),
        !(t.is_spec(t@.1.reg) && t.is_spec(t@.1.lnk)),
{
}

/// For file types read with the platform's type bits (as `FileAttr::file_type`
/// gives them), equality compares the modes under `S_IFMT` and ignores the
/// permission bits; and a file is at most one of directory, regular file and
/// symbolic link.
pub proof fn lemma_platform_file_types(a: FileType, b: FileType)
    requires
        a@.1 == posix_mode_bits(),
        b@.1 == posix_mode_bits(),
        a@.2 == a@.0 & a@.1.fmt,
        b@.2 == b@.0 & b@.1.fmt,
    ensures
        PartialEqSpec::eq_spec(&a, &b) <==> (a@.0 & 0o170000u32 == b@.0 & 0o170000u32),
        a.is_spec(a@.1.dir) <==> (a@.0 & 0o170000u32 == 0o040000u32),
        a.is_spec(a@.1.reg) <==> (a@.0 & 0o170000u32 == 0o100000u32),
        a.is_spec(a@.1.lnk) <==> (a@.0 & 0o170000u32 == 0o120000u32),
        !(a.is_spec(a@.1.dir) && a.is_spec(a@.1.reg)),
        !(a.is_spec(a@.1.dir) && a.is_spec(a@.1.lnk)),
        !(a.is_spec(a@.1.reg) && a.is_spec(a@.1.lnk)),
{
    lemma_file_type_exclusive(a);
}

/// What the platform's `stat` says of a file that this layer reads: its
/// size and its mode.
#[derive(Clone, Debug)]
pub struct FileAttr {
    size: i64,
    mode: u32,
}

impl View for FileAttr {
    /// The size field and the mode field of the `stat` record.
    type V = (i64, u32);

    closed spec fn view(&self) -> (i64, u32) {
        (self.size, self.mode)
    }
}

impl FileAttr {
    /// The attributes of a `stat` record with the given size and mode.
    pub fn from_stat(st_size: i64, st_mode: u32) -> (r: FileAttr)
        ensures
            r@ == (st_size, st_mode),
    {
        FileAttr { size: st_size, mode: st_mode }
    }

    /// The size in bytes, the signed field read as unsigned.
    pub fn size(&self) -> (r: u64)
        ensures
            r == self@.0 as u64,
    {
        self.size as u64
    }

    /// The permission bits: the whole mode.
    pub fn perm(&self) -> (r: FilePermissions)
        ensures
            r@ == self@.1,
    {
        FilePermissions { mode: self.mode }
    }

    /// The file type: the mode, read with the platform's type bits.
    pub fn file_type(&self) -> (r: FileType)
        ensures
            r@ == (self@.1, posix_mode_bits(), self@.1 & posix_mode_bits().fmt),
    {
        FileType::from_mode_bits(self.mode, libc_mode_bits())
    }

    /// The file type, read with the given type bits.
    pub fn file_type_with(&self, bits: ModeBits) -> (r: FileType)
        ensures
            r@ == (self@.1, bits, self@.1 & bits.fmt),
    {
        FileType::from_mode_bits(self.mode, bits)
    }

    pub fn modified(&self) -> (r: Result<std::time::SystemTime, IoError>)
        ensures
            r matches Err(e) && e == IoError::Unsupported(Unsupported::ModifiedTime),
    {
        Err(IoError::Unsupported(Unsupported::ModifiedTime))
    }

    pub fn accessed(&self) -> (r: Result<std::time::SystemTime, IoError>)
        ensures
            r matches Err(e) && e == IoError::Unsupported(Unsupported::AccessedTime),
    {
        Err(IoError::Unsupported(Unsupported::AccessedTime))
    }

    pub fn created(&self) -> (r: Result<std::time::SystemTime, IoError>)
        ensures
            r matches Err(e) && e == IoError::Unsupported(Unsupported::CreationTime),
    {
        Err(IoError::Unsupported(Unsupported::CreationTime))
    }
}

/// The times to set on a file; the platform keeps none, so nothing is kept.
#[derive(Copy, Clone, Debug, Default)]
pub struct FileTimes {}

impl FileTimes {
    pub fn set_accessed(&mut self, _t: std::time::SystemTime)
        ensures
            *final(self) == *old(self),
    {
    }

    pub fn set_modified(&mut self, _t: std::time::SystemTime)
        ensures
            *final(self) == *old(self),
    {
    }
}

/// Where `lseek` counts from.
#[derive(Copy, Clone, Debug, PartialEq, Eq, Structural)]
pub enum SeekFrom {
    Start(u64),
    End(i64),
    Current(i64),
}

/// An open file.
#[derive(Debug)]
pub struct File(FileDesc);

/// The error number that the unsupported file operations answer with.
pub const EINVAL_CODE: i32 = 22;

impl File {
    /// The file open on the given descriptor.
    pub fn from_inner(fd: FileDesc) -> (r: File)
        ensures
            r.fd_spec() == fd.fd_spec(),
    {
        File(fd)
    }

    /// The descriptor number of the file.
    pub closed spec fn fd_spec(&self) -> i32 {
        self.0.fd_spec()
    }

    /// The descriptor of the file.
    pub fn as_inner(&self) -> (r: &FileDesc)
        ensures
            r.fd_spec() == self.fd_spec(),
    {
        &self.0
    }

    /// The descriptor of the file, ownership passing to the caller.
    pub fn into_inner(self) -> (r: FileDesc)
        ensures
            r.fd_spec() == self.fd_spec(),
    {
        self.0
    }

    /// The `whence` and offset that `lseek` is called with for a position.
    pub fn seek_args(pos: SeekFrom) -> (r: (i32, i64))
        ensures
            r == (match pos {
                SeekFrom::Start(off) => (0i32, off as i64),
                SeekFrom::End(off) => (2i32, off),
                SeekFrom::Current(off) => (1i32, off),
            }),
    {
        let whence = libc_seek_whence();
        match pos {
            SeekFrom::Start(off) => (whence.set, off as i64),
            SeekFrom::End(off) => (whence.end, off),
            SeekFrom::Current(off) => (whence.cur, off),
        }
    }

    pub fn fsync(&self) -> (r: Result<(), IoError>)
        ensures
            r matches Err(e) && e == IoError::Os(EINVAL_CODE),
    {
        Err(IoError::Os(22))
    }

    pub fn datasync(&self) -> (r: Result<(), IoError>)
        ensures
            r matches Err(e) && e == IoError::Os(EINVAL_CODE),
    {
        self.fsync()
    }

    pub fn truncate(&self, _size: u64) -> (r: Result<(), IoError>)
        ensures
            r matches Err(e) && e == IoError::Os(EINVAL_CODE),
    {
        Err(IoError::Os(22))
    }

    pub fn is_read_vectored(&self) -> (r: bool)
        ensures
            !r,
    {
        false
    }

    pub fn is_write_vectored(&self) -> (r: bool)
        ensures
            !r,
    {
        false
    }

    /// Writes are not buffered here, so there is nothing to flush.
    pub fn flush(&self) -> (r: Result<(), IoError>)
        ensures
            r is Ok,
    {
        Ok(())
    }

    pub fn duplicate(&self) -> (r: Result<File, IoError>)
        ensures
            r matches Err(e) && e == IoError::Os(EINVAL_CODE),
    {
        Err(IoError::Os(22))
    }

    pub fn set_permissions(&self, _perm: FilePermissions) -> (r: Result<(), IoError>)
        ensures
            r matches Err(e) && e == IoError::Os(EINVAL_CODE),
    {
        Err(IoError::Os(22))
    }

    pub fn set_times(&self, _times: FileTimes) -> (r: Result<(), IoError>)
        ensures
            r matches Err(e) && e == IoError::Os(EINVAL_CODE),
    {
        Err(IoError::Os(22))
    }
}

/// The mode that directories are created with.
#[derive(Debug)]
pub struct DirBuilder {
    mode: u32,
}

impl DirBuilder {
    pub fn new() -> (r: DirBuilder)
        ensures
            r.mode_spec() == 0o777,
    {
        DirBuilder { mode: 0o777 }
    }

    pub closed spec fn mode_spec(&self) -> u32 {
        self.mode
    }

    /// The mode that `mkdir` is called with.
    pub fn mode(&self) -> (r: u32)
        ensures
            r == self.mode_spec(),
    {
        self.mode
    }
}

/// The entries of a directory. The platform cannot list directories, so no
/// value of this type can exist: its invariant holds of none.
#[derive(Debug)]
pub struct ReadDir {
    never: (),
}

impl ReadDir {
    #[verifier::type_invariant]
    spec fn exists_never(self) -> bool {
        false
    }
}

/// An entry of a directory; as for `ReadDir`, no value of this type can exist.
#[derive(Debug)]
pub struct DirEntry {
    never: (),
}

impl DirEntry {
    #[verifier::type_invariant]
    spec fn exists_never(self) -> bool {
        false
    }

    pub fn path(&self) -> std::path::PathBuf {
        proof {
            use_type_invariant(self);
        }
        vstd::pervasive::unreached()
    }

    /// The name of the entry, as the bytes that the platform stores.
    pub fn file_name(&self) -> Vec<u8> {
        proof {
            use_type_invariant(self);
        }
        vstd::pervasive::unreached()
    }

    pub fn metadata(&self) -> Result<FileAttr, IoError> {
        proof {
            use_type_invariant(self);
        }
        vstd::pervasive::unreached()
    }

    pub fn file_type(&self) -> Result<FileType, IoError> {
        proof {
            use_type_invariant(self);
        }
        vstd::pervasive::unreached()
    }
}

/// The bytes of a path as the C string that system calls take: the path and
/// a closing NUL. A path that holds a NUL byte has no such string and is
/// refused.
pub fn c_path_bytes(path: &[u8]) -> (r: Result<Vec<u8>, IoError>)
    ensures
        path@.contains(0u8) ==> r == Err::<Vec<u8>, IoError>(IoError::NulInFileName),
        !path@.contains(0u8) ==> (r matches Ok(v) && v@ == path@.push(0u8)),
{
    let mut out: Vec<u8> = Vec::new();
    let mut i: usize = 0;
    while i < path.len()
        invariant
            i <= path.len(),
            out@ == path@.subrange(0, i as int),
            forall|j: int| 0 <= j < i ==> path@[j] != 0u8,
        decreases path.len() - i,
    {
        if path[i] == 0 {
            assert(path@[i as int] == 0u8);
            return Err(IoError::NulInFileName);
        }
        out.push(path[i]);
        i = i + 1;
    }
    assert(path@.subrange(0, path@.len() as int) =~= path@);
    assert(!path@.contains(0u8));
    out.push(0);
    Ok(out)
}

pub fn readdir(_p: &std::path::Path) -> (r: Result<ReadDir, IoError>)
    ensures
        r matches Err(e) && e == IoError::Unsupported(Unsupported::Operation),
{
    unsupported()
}

pub fn set_perm(_p: &std::path::Path, _perm: FilePermissions) -> (r: Result<(), IoError>)
    ensures
        r matches Err(e) && e == IoError::Unsupported(Unsupported::Operation),
{
    unsupported()
}

/// Removing a directory tree is accepted and does nothing.
pub fn remove_dir_all(_path: &std::path::Path) -> (r: Result<(), IoError>)
    ensures
        r is Ok,
{
    Ok(())
}

pub fn readlink(_p: &std::path::Path) -> (r: Result<std::path::PathBuf, IoError>)
    ensures
        r matches Err(e) && e == IoError::Unsupported(Unsupported::Operation),
{
    unsupported()
}

pub fn symlink(_original: &std::path::Path, _link: &std::path::Path) -> (r: Result<(), IoError>)
    ensures
        r matches Err(e) && e == IoError::Unsupported(Unsupported::Operation),
{
    unsupported()
}

pub fn link(_original: &std::path::Path, _link: &std::path::Path) -> (r: Result<(), IoError>)
    ensures
        r matches Err(e) && e == IoError::Unsupported(Unsupported::Operation),
{
    unsupported()
}

pub fn lstat(_p: &std::path::Path) -> (r: Result<FileAttr, IoError>)
    ensures
        r matches Err(e) && e == IoError::Unsupported(Unsupported::Operation),
{
    unsupported()
}

pub fn canonicalize(_p: &std::path::Path) -> (r: Result<std::path::PathBuf, IoError>)
    ensures
        r matches Err(e) && e == IoError::Unsupported(Unsupported::Operation),
{
    unsupported()
}

/// The options of `open`, and the flag values of the platform that they are
/// turned into.
#[derive(Clone, Debug)]
pub struct OpenOptions {
    read: bool,
    write: bool,
    append: bool,
    truncate: bool,
    create: bool,
    create_new: bool,
    custom_flags: i32,
    mode: u32,
    bits: OpenFlagBits,
}

/// What an `OpenOptions` holds.
pub struct OpenOptionsView {
    pub read: bool,
    pub write: bool,
    pub append: bool,
    pub truncate: bool,
    pub create: bool,
    pub create_new: bool,
    pub custom_flags: i32,
    pub mode: u32,
    pub bits: OpenFlagBits,
}

impl View for OpenOptions {
    type V = OpenOptionsView;

    closed spec fn view(&self) -> OpenOptionsView {
        OpenOptionsView {
            read: self.read,
            write: self.write,
            append: self.append,
            truncate: self.truncate,
            create: self.create,
            create_new: self.create_new,
            custom_flags: self.custom_flags,
            mode: self.mode,
            bits: self.bits,
        }
    }
}

impl OpenOptionsView {
    /// The error for a combination of options that cannot be opened.
    pub open spec fn invalid(self) -> IoError {
        IoError::Os(self.bits.einval)
    }

    /// The access-mode flags: read, write or both, with append if asked for;
    /// asking for none of them is an error.
    pub open spec fn access_mode(self) -> Result<i32, IoError> {
        if !self.read && !self.write && !self.append {
            Err(self.invalid())
        } else if self.append {
            Ok((if self.read { self.bits.rdwr } else { self.bits.wronly }) | self.bits.append)
        } else if self.read && self.write {
            Ok(self.bits.rdwr)
        } else if self.read {
            Ok(self.bits.rdonly)
        } else {
            Ok(self.bits.wronly)
        }
    }

    /// Truncating or creating without writing, and truncating an appended
    /// file that is not created anew, are refused.
    pub open spec fn creation_refused(self) -> bool {
        ||| !self.write && !self.append && (self.truncate || self.create || self.create_new)
        ||| self.append && self.truncate && !self.create_new
    }

    /// The creation flags: `create_new` creates exclusively, whatever else is
    /// set; otherwise create and truncate give their own flags.
    pub open spec fn creation_mode(self) -> Result<i32, IoError> {
        if self.creation_refused() {
            Err(self.invalid())
        } else if self.create_new {
            Ok(self.bits.creat | self.bits.excl)
        } else if self.create && self.truncate {
            Ok(self.bits.creat | self.bits.trunc)
        } else if self.create {
            Ok(self.bits.creat)
        } else if self.truncate {
            Ok(self.bits.trunc)
        } else {
            Ok(0)
        }
    }

    /// The flags that `open` is called with: close-on-exec, the access mode,
    /// the creation flags and the custom flags outside the access-mode mask.
    pub open spec fn open_flags(self) -> Result<i32, IoError> {
        match self.access_mode() {
            Err(e) => Err(e),
            Ok(access) => match self.creation_mode() {
                Err(e) => Err(e),
                Ok(creation) => Ok(
                    self.bits.cloexec | access | creation | (self.custom_flags & !self.bits.accmode),
                ),
            },
        }
    }
}

impl OpenOptions {
    /// Options that ask for nothing, with mode `0o666` and the platform's flag values.
    pub fn new() -> (r: OpenOptions)
        ensures
            !r@.read && !r@.write && !r@.append,
            !r@.truncate && !r@.create && !r@.create_new,
            r@.custom_flags == 0,
            r@.mode == 0o666,
            r@.bits.well_formed(),
    {
        OpenOptions {
            read: false,
            write: false,
            append: false,
            truncate: false,
            create: false,
            create_new: false,
            custom_flags: 0,
            mode: 0o666,
            bits: libc_open_flag_bits(),
        }
    }

    /// The same options with the given flag values of a platform.
    pub fn with_flag_bits(&self, bits: OpenFlagBits) -> (r: OpenOptions)
        ensures
            r@ == (OpenOptionsView { bits, ..self@ }),
    {
        OpenOptions {
            read: self.read,
            write: self.write,
            append: self.append,
            truncate: self.truncate,
            create: self.create,
            create_new: self.create_new,
            custom_flags: self.custom_flags,
            mode: self.mode,
            bits,
        }
    }

    /// The flag values that these options are turned into.
    pub fn flag_bits(&self) -> (r: OpenFlagBits)
        ensures
            r == self@.bits,
    {
        self.bits
    }

    /// The permission bits that a created file gets.
    pub fn mode(&self) -> (r: u32)
        ensures
            r == self@.mode,
    {
        self.mode
    }

    pub fn read(&mut self, read: bool)
        ensures
            final(self)@ == (OpenOptionsView { read, ..old(self)@ }),
    {
        self.read = read;
    }

    pub fn write(&mut self, write: bool)
        ensures
            final(self)@ == (OpenOptionsView { write, ..old(self)@ }),
    {
        self.write = write;
    }

    pub fn append(&mut self, append: bool)
        ensures
            final(self)@ == (OpenOptionsView { append, ..old(self)@ }),
    {
        self.append = append;
    }

    pub fn truncate(&mut self, truncate: bool)
        ensures
            final(self)@ == (OpenOptionsView { truncate, ..old(self)@ }),
    {
        self.truncate = truncate;
    }

    pub fn create(&mut self, create: bool)
        ensures
            final(self)@ == (OpenOptionsView { create, ..old(self)@ }),
    {
        self.create = create;
    }

    pub fn create_new(&mut self, create_new: bool)
        ensures
            final(self)@ == (OpenOptionsView { create_new, ..old(self)@ }),
    {
        self.create_new = create_new;
    }

    /// Extra flags for `open`; those inside the access-mode mask are ignored.
    pub fn custom_flags(&mut self, flags: i32)
        ensures
            final(self)@ == (OpenOptionsView { custom_flags: flags, ..old(self)@ }),
    {
        self.custom_flags = flags;
    }

    /// The access-mode flags of `open`.
    pub fn get_access_mode(&self) -> (r: Result<i32, IoError>)
        ensures
            r == self@.access_mode(),
    {
        match (self.read, self.write, self.append) {
            (true, false, false) => Ok(self.bits.rdonly),
            (false, true, false) => Ok(self.bits.wronly),
            (true, true, false) => Ok(self.bits.rdwr),
            (false, _, true) => Ok(self.bits.wronly | self.bits.append),
            (true, _, true) => Ok(self.bits.rdwr | self.bits.append),
            (false, false, false) => Err(IoError::Os(self.bits.einval)),
        }
    }

    /// The creation flags of `open`.
    pub fn get_creation_mode(&self) -> (r: Result<i32, IoError>)
        ensures
            r == self@.creation_mode(),
    {
        match (self.write, self.append) {
            (true, false) => {},
            (false, false) => {
                if self.truncate || self.create || self.create_new {
                    return Err(IoError::Os(self.bits.einval));
                }
            },
            (_, true) => {
                if self.truncate && !self.create_new {
                    return Err(IoError::Os(self.bits.einval));
                }
            },
        }

        Ok(
            match (self.create, self.truncate, self.create_new) {
                (false, false, false) => 0,
                (true, false, false) => self.bits.creat,
                (false, true, false) => self.bits.trunc,
                (true, true, false) => self.bits.creat | self.bits.trunc,
                (_, _, true) => self.bits.creat | self.bits.excl,
            },
        )
    }

    /// The flags that a file is opened with under these options.
    pub fn open_flags(&self) -> (r: Result<i32, IoError>)
        ensures
            r == self@.open_flags(),
    {
        let access = match self.get_access_mode() {
            Ok(a) => a,
            Err(e) => return Err(e),
        };
        let creation = match self.get_creation_mode() {
            Ok(c) => c,
            Err(e) => return Err(e),
        };
        Ok(self.bits.cloexec | access | creation | (self.custom_flags & !self.bits.accmode))
    }
}

proof fn lemma_or_keeps_masked(cloexec: i32, access: i32, creation: i32, custom: i32, mask: i32)
    requires
        cloexec & mask == 0,
        creation & mask == 0,
    ensures
        (cloexec | access | creation | (custom & !mask)) & mask == access & mask,
{
    assert((cloexec | access | creation | (custom & !mask)) & mask == access & mask) by (bit_vector)
        requires
            cloexec & mask == 0,
            creation & mask == 0,
    ;
}

proof fn lemma_or_outside_mask(x: i32, y: i32, mask: i32)
    requires
        x & mask == 0,
        y & mask == 0,
    ensures
        (x | y) & mask == 0,
{
    assert((x | y) & mask == 0) by (bit_vector)
        requires
            x & mask == 0,
            y & mask == 0,
    ;
}

/// The access mode, case by case: it looks at read, write and append alone.
/// Reading and writing without appending is `O_RDWR`; appending adds
/// `O_APPEND` to `O_RDWR` or `O_WRONLY`; asking for none of the three is the
/// invalid-argument error.
pub proof fn lemma_access_mode_cases(o: OpenOptionsView)
    ensures
        !o.read && !o.write && !o.append ==> o.access_mode() == Err::<i32, IoError>(
            IoError::Os(o.bits.einval),
        ),
        o.read && !o.write && !o.append ==> o.access_mode() == Ok::<i32, IoError>(o.bits.rdonly),
        !o.read && o.write && !o.append ==> o.access_mode() == Ok::<i32, IoError>(o.bits.wronly),
        o.read && o.write && !o.append ==> o.access_mode() == Ok::<i32, IoError>(o.bits.rdwr),
        !o.read && o.append ==> o.access_mode() == Ok::<i32, IoError>(
            o.bits.wronly | o.bits.append,
        ),
        o.read && o.append ==> o.access_mode() == Ok::<i32, IoError>(o.bits.rdwr | o.bits.append),
{
}

/// Two sets of options that agree on read, write, append and the flag values
/// get the same access mode, whatever their creation options, custom flags
/// and mode.
pub proof fn lemma_access_mode_ignores_creation(o: OpenOptionsView, p: OpenOptionsView)
    requires
        o.read == p.read,
        o.write == p.write,
        o.append == p.append,
        o.bits == p.bits,
    ensures
        o.access_mode() == p.access_mode(),
{
}

/// The creation flags, case by case. Without write or append access, asking
/// to truncate or create is refused; appending with truncation is refused
/// unless the file is created anew. Otherwise `create_new` gives
/// `O_CREAT | O_EXCL`, `create` alone `O_CREAT` (a missing file is made, an
/// existing one keeps its contents), `truncate` alone `O_TRUNC`, both
/// `O_CREAT | O_TRUNC`, and none of them nothing.
pub proof fn lemma_creation_mode_cases(o: OpenOptionsView)
    ensures
        !o.write && !o.append && (o.truncate || o.create || o.create_new) ==> o.creation_mode()
            == Err::<i32, IoError>(IoError::Os(o.bits.einval)),
        o.append && o.truncate && !o.create_new ==> o.creation_mode() == Err::<i32, IoError>(
            IoError::Os(o.bits.einval),
        ),
        !o.truncate && !o.create && !o.create_new ==> o.creation_mode() == Ok::<i32, IoError>(0),
        (o.write || o.append) && o.create_new ==> o.creation_mode() == Ok::<i32, IoError>(
            o.bits.creat | o.bits.excl,
        ),
        (o.write || o.append) && o.create && !o.truncate && !o.create_new ==> o.creation_mode()
            == Ok::<i32, IoError>(o.bits.creat),
        o.write && !o.append && !o.create && o.truncate && !o.create_new ==> o.creation_mode()
            == Ok::<i32, IoError>(o.bits.trunc),
        o.write && !o.append && o.create && o.truncate && !o.create_new ==> o.creation_mode()
            == Ok::<i32, IoError>(o.bits.creat | o.bits.trunc),
{
}

/// Two sets of options that agree on write, append, truncate, create,
/// create_new and the flag values get the same creation flags: reading
/// plays no part, nor do custom flags or the mode.
pub proof fn lemma_creation_mode_ignores_read(o: OpenOptionsView, p: OpenOptionsView)
    requires
        o.write == p.write,
        o.append == p.append,
        o.truncate == p.truncate,
        o.create == p.create,
        o.create_new == p.create_new,
        o.bits == p.bits,
    ensures
        o.creation_mode() == p.creation_mode(),
{
}

/// `open` is asked for exactly when some access is requested and the
/// creation options fit it; every refusal is the invalid-argument error.
/// In particular truncating or creating a file that is opened neither for
/// writing nor for appending is refused.
pub proof fn lemma_open_flags_refusal(o: OpenOptionsView)
    ensures
        o.open_flags() is Ok <==> ((o.read || o.write || o.append) && !o.creation_refused()),
        o.open_flags() is Err ==> o.open_flags() == Err::<i32, IoError>(o.invalid()),
        !o.write && !o.append && (o.truncate || o.create || o.create_new) ==> o.open_flags() is Err,
{
}

/// The flags of a successful `open` always ask for close-on-exec.
pub proof fn lemma_open_flags_close_on_exec(o: OpenOptionsView)
    ensures
        o.open_flags() matches Ok(f) ==> f & o.bits.cloexec == o.bits.cloexec,
{
    if let Ok(f) = o.open_flags() {
        let cloexec = o.bits.cloexec;
        let access = o.access_mode()->Ok_0;
        let creation = o.creation_mode()->Ok_0;
        let custom = o.custom_flags;
        let mask = o.bits.accmode;
        assert((cloexec | access | creation | (custom & !mask)) & cloexec == cloexec) by (bit_vector);
    }
}

/// The custom flags outside the access-mode mask always reach `open`.
pub proof fn lemma_open_flags_keep_custom_flags(o: OpenOptionsView)
    ensures
        o.open_flags() matches Ok(f) ==> f & (o.custom_flags & !o.bits.accmode) == (o.custom_flags
            & !o.bits.accmode),
{
    if let Ok(f) = o.open_flags() {
        let cloexec = o.bits.cloexec;
        let access = o.access_mode()->Ok_0;
        let creation = o.creation_mode()->Ok_0;
        let custom = o.custom_flags;
        let mask = o.bits.accmode;
        assert((cloexec | access | creation | (custom & !mask)) & (custom & !mask) == (custom
            & !mask)) by (bit_vector);
    }
}

/// With `create_new`, a successful `open` always creates exclusively.
pub proof fn lemma_open_flags_create_new(o: OpenOptionsView)
    ensures
        o.create_new ==> (o.open_flags() matches Ok(f) ==> f & (o.bits.creat | o.bits.excl) == (
        o.bits.creat | o.bits.excl)),
{
    if o.create_new {
        if let Ok(f) = o.open_flags() {
            let cloexec = o.bits.cloexec;
            let access = o.access_mode()->Ok_0;
            let ce = o.bits.creat | o.bits.excl;
            let custom = o.custom_flags;
            let mask = o.bits.accmode;
            assert((cloexec | access | ce | (custom & !mask)) & ce == ce) by (bit_vector);
        }
    }
}

/// On a platform whose flags have the usual shape, the access-mode bits of
/// the flags that `open` gets are those of the access mode alone: custom
/// flags and creation flags never change whether a file is read, written or
/// both.
pub proof fn lemma_open_flags_access_bits(o: OpenOptionsView)
    requires
        o.bits.well_formed(),
    ensures
        o.open_flags() matches Ok(f) ==> (o.access_mode() matches Ok(a) && f & o.bits.accmode == a
            & o.bits.accmode),
{
    if let Ok(f) = o.open_flags() {
        let b = o.bits;
        let creation = o.creation_mode()->Ok_0;
        if o.create_new {
            lemma_or_outside_mask(b.creat, b.excl, b.accmode);
        } else if o.create && o.truncate {
            lemma_or_outside_mask(b.creat, b.trunc, b.accmode);
        } else if !o.create && !o.truncate {
            assert(0i32 & b.accmode == 0) by (bit_vector);
        }
        assert(creation & b.accmode == 0);
        lemma_or_keeps_masked(b.cloexec, o.access_mode()->Ok_0, creation, o.custom_flags, b.accmode);
    }
}

} // verus!
