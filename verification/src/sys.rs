//! The trusted boundary of the library: every call into an outside crate, and
//! the two standard-library operations that the verifier has no contract for,
//! stands here behind a declared contract.
//!
//! Errors are returned as the raw errno value reported by the kernel.  What a
//! call finds in the filesystem depends on state outside the program, so the
//! contracts below promise only what holds of every outcome; the library's
//! verified code takes the results apart and makes all decisions.

use vstd::prelude::*;

verus! {

use crate::dir::DirEntry;
use crate::dir::Metadata;
use crate::dir::SimpleType;
use crate::writer::is_alnum_byte;
use nix::fcntl::OFlag;
use nix::sys::stat::Mode;

/// A guard that panics when dropped unless it was defused first.
#[verifier::external_type_specification]
#[verifier::external_body]
pub struct ExDropBomb(drop_bomb::DropBomb);

/// One entry read out of a directory stream.
#[verifier::external_type_specification]
#[verifier::external_body]
pub struct ExNixEntry(nix::dir::Entry);

/// Relies on drop_bomb::DropBomb::new: the returned guard panics when it is
/// dropped armed, and does nothing when its thread is already panicking.
#[verifier::external_body]
pub fn new_bomb(msg: &'static str) -> drop_bomb::DropBomb {
    drop_bomb::DropBomb::new(msg)
}

/// Relies on drop_bomb::DropBomb::defuse: the guard will no longer panic on
/// drop.
#[verifier::external_body]
pub fn defuse_bomb(bomb: &mut drop_bomb::DropBomb) {
    bomb.defuse()
}

/// Relies on rand's Alphanumeric distribution: every sample is an ASCII
/// alphanumeric byte (a digit or a letter of either case), drawn from the
/// thread-local generator.
#[verifier::external_body]
pub fn random_alnum() -> (c: u8)
    ensures
        is_alnum_byte(c),
{
    rand::Rng::sample(&mut rand::thread_rng(), rand::distributions::Alphanumeric)
}

/// Relies on String::push: appends exactly the given character at the end.
#[verifier::external_body]
pub fn push_char(s: &mut String, c: char)
    ensures
        final(s)@ == old(s)@.push(c),
{
    s.push(c)
}

/// Relies on nix::fcntl::openat: opens the name under the directory
/// descriptor for reading; a new descriptor is never negative.
#[verifier::external_body]
pub fn openat_read(dirfd: i32, path: &str) -> (r: Result<i32, i32>)
    ensures
        r matches Ok(fd) ==> fd >= 0,
{
    nix::fcntl::openat(dirfd, path, OFlag::O_RDONLY | OFlag::O_CLOEXEC, Mode::empty())
        .map_err(|e| e as i32)
}

/// Relies on nix::fcntl::openat: opens the name under the directory
/// descriptor as a directory; a new descriptor is never negative.
#[verifier::external_body]
pub fn openat_dir(dirfd: i32, path: &str) -> (r: Result<i32, i32>)
    ensures
        r matches Ok(fd) ==> fd >= 0,
{
    nix::fcntl::openat(
        dirfd,
        path,
        OFlag::O_RDONLY | OFlag::O_DIRECTORY | OFlag::O_CLOEXEC,
        Mode::empty(),
    ).map_err(|e| e as i32)
}

/// Relies on nix::fcntl::openat with O_TMPFILE: creates a writable file with
/// the given permission bits inside the directory, open but with no name in
/// any directory; a new descriptor is never negative.
#[verifier::external_body]
pub fn open_tmpfile(dirfd: i32, mode: u32) -> (r: Result<i32, i32>)
    ensures
        r matches Ok(fd) ==> fd >= 0,
{
    nix::fcntl::openat(
        dirfd,
        ".",
        OFlag::O_TMPFILE | OFlag::O_WRONLY | OFlag::O_CLOEXEC,
        Mode::from_bits_truncate(mode),
    ).map_err(|e| e as i32)
}

/// Relies on nix::unistd::linkat over the open descriptor's /proc entry (with
/// AT_SYMLINK_FOLLOW): gives the open, unnamed file a visible name inside the
/// directory; fails with the "already exists" code when the name is taken.
#[verifier::external_body]
pub fn link_tmpfile(dirfd: i32, fd: i32, name: &str) -> (r: Result<(), i32>) {
    let proc_path = format!("/proc/self/fd/{}", fd);
    nix::unistd::linkat(
        None,
        proc_path.as_str(),
        Some(dirfd),
        name,
        nix::unistd::LinkatFlags::SymlinkFollow,
    ).map_err(|e| e as i32)
}

/// Relies on nix::fcntl::renameat, both names under the same directory
/// descriptor: replaces the new name with the old one as a single atomic
/// step; a process inspecting the new name sees either the file that was
/// there before or the renamed one, never anything in between.
#[verifier::external_body]
pub fn rename_at(dirfd: i32, old_name: &str, new_name: &str) -> (r: Result<(), i32>) {
    nix::fcntl::renameat(Some(dirfd), old_name, Some(dirfd), new_name).map_err(|e| e as i32)
}

/// Relies on nix::unistd::unlinkat: removes the name (not a directory) from
/// the directory; fails with the "not found" code when the name is absent.
#[verifier::external_body]
pub fn unlink_at(dirfd: i32, name: &str) -> (r: Result<(), i32>) {
    nix::unistd::unlinkat(Some(dirfd), name, nix::unistd::UnlinkatFlags::NoRemoveDir)
        .map_err(|e| e as i32)
}

/// Relies on nix::sys::stat::mkdirat: creates the directory with the given
/// permission bits; fails with the "already exists" code when the name is
/// taken and with the "not found" code when a parent is missing.
#[verifier::external_body]
pub fn mkdir_at(dirfd: i32, name: &str, mode: u32) -> (r: Result<(), i32>) {
    nix::sys::stat::mkdirat(dirfd, name, Mode::from_bits_truncate(mode))
        .map_err(|e| e as i32)
}

/// Relies on nix::sys::stat::fstatat with AT_SYMLINK_NOFOLLOW: stats the name
/// itself (symbolic links are not followed) and hands back the mode word and
/// size as plain values.
#[verifier::external_body]
pub fn stat_at(dirfd: i32, name: &str) -> (r: Result<Metadata, i32>) {
    match nix::sys::stat::fstatat(dirfd, name, nix::fcntl::AtFlags::AT_SYMLINK_NOFOLLOW) {
        Ok(st) => Ok(Metadata { mode: st.st_mode as u32, size: st.st_size as u64 }),
        Err(e) => Err(e as i32),
    }
}

/// Relies on nix::sys::stat::fstat: the open file's current size in bytes.
#[verifier::external_body]
pub fn fstat_len(fd: i32) -> (r: Result<u64, i32>) {
    match nix::sys::stat::fstat(fd) {
        Ok(st) => Ok(st.st_size as u64),
        Err(e) => Err(e as i32),
    }
}

/// Relies on nix::sys::uio::pread: reads at most `len` bytes at the given
/// offset without moving any file cursor; which bytes come back depends on
/// the file's contents at the time of the call.
#[verifier::external_body]
pub fn pread_at(fd: i32, len: usize, off: u64) -> (r: Result<Vec<u8>, i32>)
    requires
        off <= i64::MAX as u64,
    ensures
        r matches Ok(v) ==> v@.len() <= len,
{
    let mut buf = vec![0u8; len];
    match nix::sys::uio::pread(fd, &mut buf, off as i64) {
        Ok(n) => {
            buf.truncate(n);
            Ok(buf)
        },
        Err(e) => Err(e as i32),
    }
}

/// Relies on nix::sys::uio::pwrite: writes some prefix of the buffer at the
/// given offset without moving any file cursor, and returns how many bytes it
/// wrote, never more than the buffer holds.
#[verifier::external_body]
pub fn pwrite_at(fd: i32, buf: &[u8], off: u64) -> (r: Result<usize, i32>)
    requires
        off <= i64::MAX as u64,
    ensures
        r matches Ok(n) ==> n <= buf@.len(),
{
    nix::sys::uio::pwrite(fd, buf, off as i64).map_err(|e| e as i32)
}

/// Relies on nix::fcntl::copy_file_range with no explicit offsets: copies at
/// most `len` bytes from one descriptor's current position to the other's,
/// advancing both, and returns how many bytes were actually copied.
#[verifier::external_body]
pub fn copy_range(fd_in: i32, fd_out: i32, len: usize) -> (r: Result<usize, i32>)
    ensures
        r matches Ok(n) ==> n <= len,
{
    nix::fcntl::copy_file_range(fd_in, None, fd_out, None, len).map_err(|e| e as i32)
}

/// Relies on nix::unistd::fsync: flushes the open file's data and metadata to
/// the storage device.
#[verifier::external_body]
pub fn fsync_fd(fd: i32) -> (r: Result<(), i32>) {
    nix::unistd::fsync(fd).map_err(|e| e as i32)
}

/// Relies on nix::unistd::close: releases the descriptor; an error from the
/// kernel at that point cannot be acted on any more and is dropped.
#[verifier::external_body]
pub fn close_fd(fd: i32) {
    let _ = nix::unistd::close(fd);
}

/// Relies on nix's directory stream (openat, then iterating it): opens the
/// name under the directory descriptor and reads every entry out of it,
/// including the dot entries for the directory itself and its parent.
#[verifier::external_body]
pub fn read_dir_entries(dirfd: i32, path: &str) -> (r: Result<Vec<nix::dir::Entry>, i32>) {
    let mut handle = match nix::dir::Dir::openat(
        dirfd,
        path,
        OFlag::O_RDONLY | OFlag::O_DIRECTORY | OFlag::O_CLOEXEC,
        Mode::empty(),
    ) {
        Ok(h) => h,
        Err(e) => return Err(e as i32),
    };
    let collected: Result<Vec<nix::dir::Entry>, nix::Error> = handle.iter().collect();
    collected.map_err(|e| e as i32)
}

/// Relies on nix::dir::Entry::file_name and file_type: the entry's name, and
/// the type stored in the directory entry where the filesystem keeps one,
/// reduced to plain values.
#[verifier::external_body]
pub fn entry_info(e: &nix::dir::Entry) -> DirEntry {
    let name = e.file_name().to_string_lossy().into_owned();
    let type_hint = match e.file_type() {
        Some(nix::dir::Type::File) => Some(SimpleType::File),
        Some(nix::dir::Type::Directory) => Some(SimpleType::Dir),
        Some(nix::dir::Type::Symlink) => Some(SimpleType::Symlink),
        Some(_) => Some(SimpleType::Other),
        None => None,
    };
    DirEntry { name, type_hint }
}

} // verus!
