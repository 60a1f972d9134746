//! The copy engine: an accelerated whole-file copy with a cached capability
//! flag and a byte-copy fallback.
//!
//! The fast path asks the kernel to move bytes between the two descriptors
//! directly.  Whether that syscall exists is detected at run time and cached:
//! the flag starts as "supported" and can only ever be downgraded, so after
//! the first refusal no further copy wastes a failing probe.

use vstd::prelude::*;

verus! {

use crate::errno::EINVAL;
use crate::errno::ENOSYS;
use crate::errno::EOVERFLOW;
use crate::errno::EPERM;
use crate::errno::EXDEV;
use crate::errno::is_fast_copy_unsupported;
use crate::file::FileFd;
use crate::sys;

/// How many bytes one fallback round trip moves at a time.
pub const FALLBACK_CHUNK: usize = 8192;

/// The process-wide knowledge "the kernel's range-copy syscall works here".
///
/// It starts as "supported" and moves at most once, to "unsupported", the
/// first time the syscall reports that it is missing or forbidden; it is
/// never reset.  Callers share one value across all copies so the detection
/// cost is paid once per process.
pub struct CopyCache {
    supported: bool,
}

impl CopyCache {
    /// Whether the fast path is still believed to work.
    pub closed spec fn spec_supported(self) -> bool {
        self.supported
    }

    /// A fresh cache: the fast path is assumed supported until the kernel
    /// says otherwise.
    pub fn new() -> (c: CopyCache)
        ensures
            c.spec_supported(),
    {
        CopyCache { supported: true }
    }

    /// Read the cached capability flag.
    pub fn is_supported(&self) -> (b: bool)
        ensures
            b == self.spec_supported(),
    {
        self.supported
    }
}

/// What a failed fast-path syscall means for the copy in flight.
#[derive(Clone, Copy, Debug, PartialEq, Eq, Structural)]
pub enum CopyErrorAction {
    /// No byte was copied yet and the error only says the fast path cannot
    /// serve this copy: restart from the beginning with the byte-copy loop.
    Fallback,
    /// Surface the error to the caller as it is.
    Surface,
}

/// The decision rule for a fast-path error: fall back only when nothing was
/// copied yet and the code is one of the capability-style refusals; any other
/// error, and any error after partial progress, is surfaced verbatim.
pub open spec fn spec_copy_error_action(e: i32, written: u64) -> CopyErrorAction {
    if written == 0 && is_fast_copy_unsupported(e) {
        CopyErrorAction::Fallback
    } else {
        CopyErrorAction::Surface
    }
}

/// Decide what a failed fast-path syscall means for the copy in flight.
pub fn classify_fast_copy_error(e: i32, written: u64) -> (a: CopyErrorAction)
    ensures
        a == spec_copy_error_action(e, written),
{
    if written == 0 && (e == ENOSYS || e == EPERM || e == EINVAL || e == EXDEV) {
        CopyErrorAction::Fallback
    } else {
        CopyErrorAction::Surface
    }
}

/// Copy from the source to the destination with positioned reads and writes
/// only: read a chunk at the current offset, write it at the same offset,
/// stop at the first empty read and return the total.  No file cursor is
/// touched, so the loop is safe even when both handles are views of the same
/// file.
pub fn fallback_file_copy(src: &FileFd, dest: &FileFd) -> (r: Result<u64, i32>)
    ensures
        r matches Ok(n) ==> n <= i64::MAX as u64,
{
    let mut off: u64 = 0;
    loop
        invariant
            off <= i64::MAX as u64,
        decreases i64::MAX as u64 - off,
    {
        if off > (i64::MAX as u64) - (FALLBACK_CHUNK as u64) {
            return Err(EOVERFLOW);
        }
        let chunk = match src.read_at(FALLBACK_CHUNK, off) {
            Ok(c) => c,
            Err(e) => {
                return Err(e);
            },
        };
        if chunk.len() == 0 {
            return Ok(off);
        }
        match dest.write_all_at(chunk.as_slice(), off) {
            Ok(u) => u,
            Err(e) => {
                return Err(e);
            },
        };
        off = off + chunk.len() as u64;
    }
}

/// Whole-file copy helpers for open file handles.
pub trait FileExt {
    /// Copy the entire contents of `self` into `to` and return how many bytes
    /// the fast path accounted for (the source length, when it ran to the
    /// end) or how many the fallback moved.
    ///
    /// The capability cache is downgraded, permanently, the first time the
    /// range-copy syscall reports itself missing or forbidden; it is never
    /// upgraded back, and it is left untouched when it already says
    /// "unsupported".
    fn copy_to(&self, to: &FileFd, cache: &mut CopyCache) -> (r: Result<u64, i32>)
        ensures
            final(cache).spec_supported() ==> old(cache).spec_supported(),
            !old(cache).spec_supported() ==> *final(cache) == *old(cache),
    ;
}

impl FileExt for FileFd {
    fn copy_to(&self, to: &FileFd, cache: &mut CopyCache) -> (r: Result<u64, i32>) {
        let len = match sys::fstat_len(self.raw_fd()) {
            Ok(l) => l,
            Err(e) => {
                return Err(e);
            },
        };
        if len == 0 {
            return Ok(0);
        }
        if !cache.is_supported() {
            return fallback_file_copy(self, to);
        }
        let mut written: u64 = 0;
        while written < len
            invariant
                written <= len,
                *cache == *old(cache),
            decreases len - written,
        {
            let remaining = len - written;
            let ask: usize = if remaining > (usize::MAX as u64) {
                usize::MAX
            } else {
                remaining as usize
            };
            match sys::copy_range(self.raw_fd(), to.raw_fd(), ask) {
                Ok(n) => {
                    if n == 0 {
                        // The source shrank under the copy: nothing more can
                        // be read through the fast path, stop with the bytes
                        // that were moved.
                        return Ok(written);
                    }
                    written = written + n as u64;
                },
                Err(e) => {
                    if crate::errno::is_downgrade_errno(e) {
                        cache.supported = false;
                    }
                    match classify_fast_copy_error(e, written) {
                        CopyErrorAction::Fallback => {
                            return fallback_file_copy(self, to);
                        },
                        CopyErrorAction::Surface => {
                            return Err(e);
                        },
                    }
                },
            }
        }
        Ok(written)
    }
}

} // verus!
