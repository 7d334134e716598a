//! The error translator.
//!
//! Every failure that this layer can report is one value of [`SysError`], a
//! closed taxonomy.  At the ABI boundary a `SysError` is collapsed into a
//! single negative integer, `-errno`.  Errors of the host layers are mapped
//! into the taxonomy at the handler boundary; no host error type ever crosses
//! the ABI.

use vstd::prelude::*;

verus! {

/// The closed taxonomy of error conditions this layer can report.
///
/// Each variant corresponds to exactly one Linux `errno` value, given by
/// [`SysError::spec_code`].
#[derive(Clone, Copy, Debug, PartialEq, Eq, Structural)]
pub enum SysError {
    /// The requested operation is outside the supported set (`ENOSYS`).
    NotImplemented,
    /// The file descriptor does not denote a live table slot (`EBADF`).
    BadDescriptor,
    /// An argument, alignment or length is invalid (`EINVAL`).
    InvalidArgument,
    /// Bytes did not decode as valid text (`EINVAL` at the boundary).
    InvalidData,
    /// A caller-supplied address is unusable (`EFAULT`).
    BadAddress,
    /// A generic I/O failure of the host layer (`EIO`).
    Io,
    /// The named object does not exist (`ENOENT`).
    NotFound,
    /// The caller lacks the needed permission (`EACCES`).
    PermissionDenied,
    /// The object is a directory where a file was needed (`EISDIR`).
    IsADirectory,
    /// The object is not a directory where one was needed (`ENOTDIR`).
    NotADirectory,
    /// The object already exists (`EEXIST`).
    AlreadyExists,
    /// Too many levels of indirection in the filesystem (`ELOOP`).
    FilesystemLoop,
    /// The filesystem is read-only (`EROFS`).
    ReadOnlyFilesystem,
    /// The host allocator is exhausted (`ENOMEM`).
    OutOfMemory,
}

impl SysError {
    /// The positive `errno` value of this error.
    pub open spec fn spec_code(self) -> int {
        match self {
            SysError::NotImplemented => 38,
            SysError::BadDescriptor => 9,
            SysError::InvalidArgument => 22,
            SysError::InvalidData => 22,
            SysError::BadAddress => 14,
            SysError::Io => 5,
            SysError::NotFound => 2,
            SysError::PermissionDenied => 13,
            SysError::IsADirectory => 21,
            SysError::NotADirectory => 20,
            SysError::AlreadyExists => 17,
            SysError::FilesystemLoop => 40,
            SysError::ReadOnlyFilesystem => 30,
            SysError::OutOfMemory => 12,
        }
    }

    /// The positive `errno` value of this error.
    pub fn code(&self) -> (c: i32)
        ensures
            c == self.spec_code(),
    {
        match self {
            SysError::NotImplemented => 38,
            SysError::BadDescriptor => 9,
            SysError::InvalidArgument => 22,
            SysError::InvalidData => 22,
            SysError::BadAddress => 14,
            SysError::Io => 5,
            SysError::NotFound => 2,
            SysError::PermissionDenied => 13,
            SysError::IsADirectory => 21,
            SysError::NotADirectory => 20,
            SysError::AlreadyExists => 17,
            SysError::FilesystemLoop => 40,
            SysError::ReadOnlyFilesystem => 30,
            SysError::OutOfMemory => 12,
        }
    }

    /// The ABI encoding of this error: `-errno`.
    pub fn to_neg_isize(&self) -> (r: isize)
        ensures
            r == -self.spec_code(),
    {
        -(self.code() as isize)
    }
}

#[verifier::external_type_specification]
#[verifier::external_body]
pub struct ExAxError(axerrno::AxError);

#[verifier::external_type_specification]
#[verifier::external_body]
pub struct ExLinuxError(axerrno::LinuxError);

#[verifier::external_type_specification]
#[verifier::external_body]
pub struct ExVfsError(axfs_ng_vfs::VfsError);

/// The code that axerrno's `LinuxError::code` reports for a Linux error:
/// a function of the error value alone.
pub uninterp spec fn linux_code_of(err: axerrno::LinuxError) -> int;

/// The Linux error that axerrno's `From<AxError>` conversion yields for a
/// host error: a function of the error value alone.
pub uninterp spec fn linux_of_ax(err: axerrno::AxError) -> axerrno::LinuxError;

/// The taxonomy kind this layer assigns to a virtual-filesystem error: a
/// function of the error value alone.
pub uninterp spec fn sys_err_of_vfs(err: axfs_ng_vfs::VfsError) -> SysError;

/// Relies on axerrno's `LinuxError::code`: the positive `errno` value of
/// the error.  The generated table holds only the codes of `errno.h`, all
/// of which lie between 1 and 4095.
#[verifier::external_body]
fn linux_error_code(err: axerrno::LinuxError) -> (r: i32)
    ensures
        1 <= r <= 4095,
        r as int == linux_code_of(err),
{
    err.code()
}

/// Relies on axerrno's `From<AxError> for LinuxError`: the Linux error
/// corresponding to a host error.
#[verifier::external_body]
fn linux_error_from_ax(err: axerrno::AxError) -> (r: axerrno::LinuxError)
    ensures
        r == linux_of_ax(err),
{
    axerrno::LinuxError::from(err)
}

/// Relies on axfs-ng-vfs's `VfsError`: the match only tells its variants
/// apart, mapping each into this layer's taxonomy; a variant without a
/// kind of its own is a generic I/O failure.
#[verifier::external_body]
fn vfs_error_to_sys(err: axfs_ng_vfs::VfsError) -> (r: SysError)
    ensures
        r == sys_err_of_vfs(err),
{
    match err {
        axfs_ng_vfs::VfsError::NotFound => SysError::NotFound,
        axfs_ng_vfs::VfsError::PermissionDenied => SysError::PermissionDenied,
        axfs_ng_vfs::VfsError::IsADirectory => SysError::IsADirectory,
        axfs_ng_vfs::VfsError::NotADirectory => SysError::NotADirectory,
        axfs_ng_vfs::VfsError::AlreadyExists => SysError::AlreadyExists,
        axfs_ng_vfs::VfsError::InvalidInput => SysError::InvalidArgument,
        axfs_ng_vfs::VfsError::FilesystemLoop => SysError::FilesystemLoop,
        axfs_ng_vfs::VfsError::ReadOnlyFilesystem => SysError::ReadOnlyFilesystem,
        _ => SysError::Io,
    }
}

/// Collapse a Linux error into the ABI representation: exactly the
/// negation of the error's own code.
pub fn linux_err_to_isize(err: axerrno::LinuxError) -> (r: isize)
    ensures
        r as int == -linux_code_of(err),
        -4095 <= r <= -1,
{
    -(linux_error_code(err) as isize)
}

/// Collapse a host error into the ABI representation: exactly the
/// host-to-Linux conversion followed by negation of the code.
pub fn ax_err_to_isize(err: axerrno::AxError) -> (r: isize)
    ensures
        r as int == -linux_code_of(linux_of_ax(err)),
        -4095 <= r <= -1,
{
    linux_err_to_isize(linux_error_from_ax(err))
}

/// Collapse a virtual-filesystem error into the ABI representation:
/// exactly the negation of the code of its taxonomy kind.
pub fn vfs_err_to_isize(err: axfs_ng_vfs::VfsError) -> (r: isize)
    ensures
        r == -sys_err_of_vfs(err).spec_code(),
        -4095 <= r <= -1,
{
    vfs_error_to_sys(err).to_neg_isize()
}

} // verus!
