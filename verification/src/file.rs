//! An open file handle addressed by raw descriptor, with positioned reads and
//! writes.  All I/O here is offset-based, so no hidden file cursor is relied
//! upon.

use vstd::prelude::*;

verus! {

use crate::errno::EIO;
use crate::errno::EOVERFLOW;
use crate::sys;
use vstd::slice::slice_subrange;

/// How many bytes one positioned read asks for at a time.
pub const READ_CHUNK: usize = 8192;

/// An open file, held as its raw descriptor.  The handle is released by
/// [`FileFd::close`]; the helpers of this crate close every descriptor they
/// create on all of their paths.
#[derive(Debug)]
pub struct FileFd {
    fd: i32,
}

impl FileFd {
    /// The raw descriptor this handle stands for.
    pub closed spec fn spec_fd(self) -> i32 {
        self.fd
    }

    /// Wrap an already-open descriptor.  The caller passes ownership: the
    /// handle's `close` releases it.
    pub fn from_fd(fd: i32) -> (f: FileFd)
        ensures
            f.spec_fd() == fd,
    {
        FileFd { fd }
    }

    /// The raw descriptor, for handing to code outside the library.
    pub fn raw_fd(&self) -> (fd: i32)
        ensures
            fd == self.spec_fd(),
    {
        self.fd
    }

    /// Release the descriptor.
    pub fn close(self) {
        sys::close_fd(self.fd)
    }

    /// The file's current size in bytes.
    pub fn len(&self) -> Result<u64, i32> {
        sys::fstat_len(self.fd)
    }

    /// Flush the file's data and metadata to the storage device.
    pub fn sync_all(&self) -> Result<(), i32> {
        sys::fsync_fd(self.fd)
    }

    /// Read at most `len` bytes at the given offset.
    pub fn read_at(&self, len: usize, off: u64) -> (r: Result<Vec<u8>, i32>)
        requires
            off <= i64::MAX as u64,
        ensures
            r matches Ok(v) ==> v@.len() <= len,
    {
        sys::pread_at(self.fd, len, off)
    }

    /// Write the whole buffer at the given offset, retrying partial writes
    /// until every byte is down; a positioned write that makes no progress is
    /// reported as an I/O error rather than looping forever.
    pub fn write_all_at(&self, buf: &[u8], off: u64) -> (r: Result<(), i32>)
        requires
            off + buf@.len() <= i64::MAX as u64,
    {
        let total = buf.len();
        let mut done: usize = 0;
        while done < total
            invariant
                done <= total,
                total == buf@.len(),
                off + total <= i64::MAX as u64,
            decreases total - done,
        {
            let part = slice_subrange(buf, done, total);
            match sys::pwrite_at(self.fd, part, off + done as u64) {
                Ok(n) => {
                    if n == 0 {
                        return Err(EIO);
                    }
                    done = done + n;
                },
                Err(e) => {
                    return Err(e);
                },
            }
        }
        Ok(())
    }

    /// Read the file's full contents from offset zero until a read comes back
    /// empty.
    pub fn read_to_end(&self) -> Result<Vec<u8>, i32> {
        let mut out: Vec<u8> = Vec::new();
        let mut off: u64 = 0;
        loop
            invariant
                off <= i64::MAX as u64,
            decreases i64::MAX as u64 - off,
        {
            if off > (i64::MAX as u64) - (READ_CHUNK as u64) {
                return Err(EOVERFLOW);
            }
            let chunk = match sys::pread_at(self.fd, READ_CHUNK, off) {
                Ok(c) => c,
                Err(e) => {
                    return Err(e);
                },
            };
            if chunk.len() == 0 {
                return Ok(out);
            }
            off = off + chunk.len() as u64;
            let mut chunk = chunk;
            out.append(&mut chunk);
        }
    }
}

} // verus!
