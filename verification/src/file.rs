//! The policy in front of every file: what may be served is decided from the
//! file's mode bits alone, before a byte of it is read.

use vstd::prelude::*;
use crate::clock::Timestamp;
use crate::error::HttpError;

verus! {

/// The read bits of owner, group and others.
pub const READ_BITS: u32 = 0o444;

/// The execute bit of the owner.
pub const OWNER_EXEC: u32 = 0o100;

/// The execute bit of others.
pub const OTHER_EXEC: u32 = 0o001;

/// The bits of a mode that hold the file type.
pub const TYPE_MASK: u32 = 0o170000;

/// The file type of a directory.
pub const TYPE_DIR: u32 = 0o040000;

/// The file type of a regular file.
pub const TYPE_REG: u32 = 0o100000;

/// The log text for a file that someone may not read.
pub const NOT_READABLE: &'static str = "not ugo+r";

/// The log text for a file that others may execute and the owner may not.
pub const EXEC_MISMATCH: &'static str = "o+x but u-x";

/// The log text for what is neither a regular file nor a directory.
pub const NOT_REGULAR: &'static str = "not a regular file";

/// What `fstat` told of an open file, as far as the policy reads it.
#[derive(Clone, Copy, Debug, PartialEq, Eq)]
pub struct FileStat {
    /// Type and permission bits (`st_mode`).
    pub mode: u32,
    /// Last modification, in seconds since the epoch (`st_mtime`).
    pub mtime: i64,
    /// Length in bytes (`st_size`).
    pub size: u64,
}

/// An opened regular file that the policy lets through.
#[derive(Debug, PartialEq, Eq)]
pub struct OpenFile<F> {
    /// The opened file.
    pub file: F,
    /// The file's modification time, at the last time we checked.
    pub mtime: Timestamp,
    /// The file's length, at the last time we checked.  The file may change
    /// while it is served; this is a snapshot.
    pub length: u64,
}

/// The result of opening a path, which might have turned out to be a
/// directory.
#[derive(Debug, PartialEq, Eq)]
pub enum FileOrDir<F> {
    File(OpenFile<F>),
    Dir,
}

/// What the policy makes of a mode.
pub enum Access {
    /// A regular file that everyone may read.
    Regular,
    /// A directory that everyone may read.
    Directory,
    /// Nothing to serve; the text says why.
    Rejected(&'static str),
}

/// Owner, group and others may all read.
pub open spec fn all_readable(mode: u32) -> bool {
    mode & READ_BITS == READ_BITS
}

/// Others may execute, the owner may not.
pub open spec fn exec_mismatch(mode: u32) -> bool {
    mode & (OWNER_EXEC | OTHER_EXEC) == OTHER_EXEC
}

/// The mode is that of a directory.
pub open spec fn is_dir(mode: u32) -> bool {
    mode & TYPE_MASK == TYPE_DIR
}

/// The mode is that of a regular file.
pub open spec fn is_regular(mode: u32) -> bool {
    mode & TYPE_MASK == TYPE_REG
}

/// The policy, rule by rule and in this order: a file that not everyone may
/// read is refused; so is one that others may execute and the owner may not;
/// a directory is a directory; a regular file is served; all else is refused.
pub open spec fn classify(mode: u32) -> Access {
    if !all_readable(mode) {
        Access::Rejected(NOT_READABLE)
    } else if exec_mismatch(mode) {
        Access::Rejected(EXEC_MISMATCH)
    } else if is_dir(mode) {
        Access::Directory
    } else if is_regular(mode) {
        Access::Regular
    } else {
        Access::Rejected(NOT_REGULAR)
    }
}

/// What `safe_open` returns for an open file and what `fstat` told of it.
pub open spec fn decision<F>(file: F, stat: FileStat) -> Result<FileOrDir<F>, HttpError> {
    match classify(stat.mode) {
        Access::Rejected(why) => Err(HttpError::NotFound(why)),
        Access::Directory => Ok(FileOrDir::Dir),
        Access::Regular => Ok(
            FileOrDir::File(
                OpenFile { file, mtime: Timestamp { sec: stat.mtime, nsec: 0 }, length: stat.size },
            ),
        ),
    }
}

/// The value of `libc::S_IFMT`, the bits of `st_mode` that hold the file type.
///
/// Taken on trust: that libc defines it as `0o170000`.
#[verifier::external_body]
fn s_ifmt() -> (m: u32)
    ensures
        m == TYPE_MASK,
{
    libc::S_IFMT as u32
}

/// The value of `libc::S_IFDIR`, the file type of a directory.
///
/// Taken on trust: that libc defines it as `0o040000`.
#[verifier::external_body]
fn s_ifdir() -> (m: u32)
    ensures
        m == TYPE_DIR,
{
    libc::S_IFDIR as u32
}

/// The value of `libc::S_IFREG`, the file type of a regular file.
///
/// Taken on trust: that libc defines it as `0o100000`.
#[verifier::external_body]
fn s_ifreg() -> (m: u32)
    ensures
        m == TYPE_REG,
{
    libc::S_IFREG as u32
}

/// Decides from its mode whether an opened file may be served.  The file is
/// handed back only inside `FileOrDir::File`; on every other path it is
/// dropped here, which closes it.
///
/// On success, returns the file along with the metadata that the checks read.
pub fn safe_open<F>(file: F, stat: &FileStat) -> (r: Result<FileOrDir<F>, HttpError>)
    ensures
        r == decision(file, *stat),
        !all_readable(stat.mode) ==> r == Err::<FileOrDir<F>, HttpError>(
            HttpError::NotFound(NOT_READABLE),
        ),
        exec_mismatch(stat.mode) ==> r is Err,
        r is Err ==> r->Err_0 is NotFound,
{
    if (stat.mode & READ_BITS) != READ_BITS {
        Err(HttpError::NotFound(NOT_READABLE))
    } else if (stat.mode & (OWNER_EXEC | OTHER_EXEC)) == OTHER_EXEC {
        Err(HttpError::NotFound(EXEC_MISMATCH))
    } else if (stat.mode & s_ifmt()) == s_ifdir() {
        Ok(FileOrDir::Dir)
    } else if (stat.mode & s_ifmt()) == s_ifreg() {
        Ok(
            FileOrDir::File(
                OpenFile { file, mtime: Timestamp::from_secs(stat.mtime), length: stat.size },
            ),
        )
    } else {
        Err(HttpError::NotFound(NOT_REGULAR))
    }
}

/// A file that lacks the read bit of the owner, of the group or of others is
/// refused as not found, whatever else its mode says: no file comes back.
pub proof fn lemma_unreadable_refused<F>(file: F, stat: FileStat)
    requires
        stat.mode & 0o400 == 0 || stat.mode & 0o040 == 0 || stat.mode & 0o004 == 0,
    ensures
        decision(file, stat) == Err::<FileOrDir<F>, HttpError>(HttpError::NotFound(NOT_READABLE)),
{
    let m = stat.mode;
    assert(m & 0o444 != 0o444) by (bit_vector)
        requires
            m & 0o400 == 0 || m & 0o040 == 0 || m & 0o004 == 0,
    ;
}

/// A file that others may execute and its owner may not is refused as not
/// found, be it a regular file or anything else.
pub proof fn lemma_exec_mismatch_refused<F>(file: F, stat: FileStat)
    requires
        stat.mode & OTHER_EXEC != 0,
        stat.mode & OWNER_EXEC == 0,
    ensures
        decision(file, stat) is Err,
        decision(file, stat)->Err_0 is NotFound,
        all_readable(stat.mode) ==> decision(file, stat)->Err_0 == HttpError::NotFound(
            EXEC_MISMATCH,
        ),
{
    let m = stat.mode;
    assert(m & (0o100u32 | 0o001u32) == 0o001) by (bit_vector)
        requires
            m & 0o001 != 0,
            m & 0o100 == 0,
    ;
}

/// A readable directory, free of the mismatch between the execute bits, is
/// opened as a directory.
pub proof fn lemma_directory_opened<F>(file: F, stat: FileStat)
    requires
        all_readable(stat.mode),
        !exec_mismatch(stat.mode),
        is_dir(stat.mode),
    ensures
        decision(file, stat) == Ok::<FileOrDir<F>, HttpError>(FileOrDir::Dir),
{
}

/// What everyone may read and is neither a regular file nor a directory (a
/// link, a pipe, a device, a socket) is refused as not found.
pub proof fn lemma_special_refused<F>(file: F, stat: FileStat)
    requires
        all_readable(stat.mode),
        !is_regular(stat.mode),
        !is_dir(stat.mode),
    ensures
        decision(file, stat) is Err,
        decision(file, stat)->Err_0 is NotFound,
        !exec_mismatch(stat.mode) ==> decision(file, stat)->Err_0 == HttpError::NotFound(
            NOT_REGULAR,
        ),
{
}

/// The file comes back only for a regular file that passes both rules, and
/// then with the time and length that `fstat` told.
pub proof fn lemma_file_only_when_regular<F>(file: F, stat: FileStat)
    ensures
        decision(file, stat) is Ok && decision(file, stat)->Ok_0 is File <==> all_readable(
            stat.mode,
        ) && !exec_mismatch(stat.mode) && is_regular(stat.mode),
        decision(file, stat) matches Ok(FileOrDir::File(f)) ==> f.file == file && f.length
            == stat.size && f.mtime == (Timestamp { sec: stat.mtime, nsec: 0 }),
{
    let m = stat.mode;
    assert(!(m & 0o170000 == 0o040000 && m & 0o170000 == 0o100000));
}

} // verus!
