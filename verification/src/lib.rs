//! Crash-safe file utilities over directory-descriptor-relative syscalls.
//!
//! The crate offers two core mechanisms:
//!
//! * an atomic file replacement writer ([`writer::FileWriter`]): content is
//!   staged in an unnamed temporary file inside the target directory, then
//!   linked to a random visible temporary name and renamed over the
//!   destination, so the destination always holds either the old or the new
//!   content in full;
//! * an accelerated whole-file copy ([`copy::FileExt::copy_to`]): an in-kernel
//!   range-copy syscall is preferred, with a cached capability flag and a
//!   transparent fallback to positioned reads and writes.
//!
//! Around them stand directory helpers ([`dir::OpenatDirExt`]) that translate
//! the common "not found" and "already exists" error codes into plain values.
//!
//! Errors are raw OS errno values (`i32`), so callers can make policy
//! decisions on the exact code that the kernel reported.

pub mod copy;
pub mod dir;
pub mod errno;
pub mod file;
pub mod sys;
pub mod writer;
