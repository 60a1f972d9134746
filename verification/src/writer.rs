//! The atomic file replacement writer.
//!
//! A writer stages every byte in a buffered, unnamed temporary file inside
//! the target directory.  Until one of the two terminal operations runs, the
//! destination name is never touched.  [`FileWriter::complete_with`] flushes
//! the buffer, links the unnamed file to a freshly drawn random visible name,
//! and renames that name over the destination: publication is one atomic
//! rename.  [`FileWriter::abandon`] drops all work with no visible effect,
//! since the staged file never had a name.  A writer that is dropped without
//! either call panics, so a forgotten error path is a loud programming error
//! rather than a leaked temporary file.

use vstd::prelude::*;

verus! {

use crate::dir::Dir;
use crate::errno::EAGAIN;
use crate::errno::EEXIST;
use crate::errno::EIO;
use crate::sys;
use vstd::slice::slice_index_get;
use vstd::slice::slice_subrange;
use vstd::string::StringExecFns;

/// The buffer is flushed to the staging file once it holds at least this
/// many bytes.
pub const WRITE_BUF_CAP: usize = 8192;

/// How many fresh random names a commit tries before it gives up with a
/// "try again" error.  Collisions on 8 random alphanumeric characters are
/// practically impossible, so this cap is only a defensive circuit breaker.
pub const LINK_RETRY_CAP: u32 = 1000;

/// An ASCII alphanumeric byte: a digit or a letter of either case.
pub open spec fn is_alnum_byte(b: u8) -> bool {
    (48 <= b && b <= 57) || (65 <= b && b <= 90) || (97 <= b && b <= 122)
}

/// An ASCII alphanumeric character.
pub open spec fn is_alnum_char(c: char) -> bool {
    (48 <= c as int && c as int <= 57) || (65 <= c as int && c as int <= 90) || (97 <= c as int
        && c as int <= 122)
}

/// The shape of a visible temporary name: the prefix, then exactly eight
/// random alphanumeric characters, then the suffix.
pub open spec fn is_temp_name(name: Seq<char>, prefix: Seq<char>, suffix: Seq<char>) -> bool {
    &&& name.len() == prefix.len() + 8 + suffix.len()
    &&& name.subrange(0, prefix.len() as int) == prefix
    &&& name.subrange(name.len() - suffix.len(), name.len() as int) == suffix
    &&& forall|j: int|
        prefix.len() <= j < prefix.len() + 8 ==> is_alnum_char(#[trigger] name[j])
}

/// Build one candidate temporary name: the prefix, eight random alphanumeric
/// characters, the suffix.
pub fn gen_tmp_name(prefix: &str, suffix: &str) -> (name: String)
    ensures
        is_temp_name(name@, prefix@, suffix@),
{
    let mut name = String::from_str(prefix);
    let mut i: usize = 0;
    while i < 8
        invariant
            i <= 8,
            name@.len() == prefix@.len() + i,
            forall|j: int| 0 <= j < prefix@.len() ==> name@[j] == prefix@[j],
            forall|j: int|
                prefix@.len() <= j < name@.len() ==> is_alnum_char(#[trigger] name@[j]),
        decreases 8 - i,
    {
        let b = sys::random_alnum();
        let c = b as char;
        sys::push_char(&mut name, c);
        i = i + 1;
    }
    let name = name.concat(suffix);
    proof {
        assert(name@.subrange(0, prefix@.len() as int) =~= prefix@);
        assert(name@.subrange(name@.len() - suffix@.len(), name@.len() as int) =~= suffix@);
    }
    name
}

/// Draw fresh random names until the unnamed staging file could be linked to
/// one.  A name collision is retried, never surfaced; every other link error
/// aborts.  The retry cap only guards against a broken name source.
fn link_with_retry(dirfd: i32, fd: i32, prefix: &str, suffix: &str) -> (r: Result<String, i32>)
    ensures
        r matches Ok(name) ==> is_temp_name(name@, prefix@, suffix@),
        r matches Err(e) ==> !crate::errno::is_already_exists(e),
{
    let mut attempts: u32 = 0;
    while attempts < LINK_RETRY_CAP
        invariant
            attempts <= LINK_RETRY_CAP,
        decreases LINK_RETRY_CAP - attempts,
    {
        let name = gen_tmp_name(prefix, suffix);
        match sys::link_tmpfile(dirfd, fd, name.as_str()) {
            Ok(u) => {
                return Ok(name);
            },
            Err(e) => {
                if e != EEXIST {
                    return Err(e);
                }
            },
        }
        attempts = attempts + 1;
    }
    Err(EAGAIN)
}

/// One in-flight atomic replacement of a file inside a directory.
///
/// Exactly one of [`FileWriter::complete_with`] (or [`FileWriter::complete`])
/// and [`FileWriter::abandon`] must be called; dropping an unfinished writer
/// panics.  Until commit, the destination name is never touched.
pub struct FileWriter<'a> {
    /// The directory the destination name lives in.
    dir: &'a Dir,
    /// The unnamed staging file.
    fd: i32,
    /// Bytes accepted but not yet handed to the OS.
    buf: Vec<u8>,
    /// How many bytes were already handed to the OS, as the next write
    /// offset.
    flushed_len: u64,
    /// The bytes already handed to the OS, in order.
    flushed: Ghost<Seq<u8>>,
    /// The destination name, untouched until commit.
    destname: String,
    /// This string will be used as a prefix for the temporary file.
    pub tmp_prefix: String,
    /// This string will be used as a suffix for the temporary file.
    pub tmp_suffix: String,
    /// Trips when the writer is dropped without a terminal call.
    bomb: drop_bomb::DropBomb,
}

impl<'a> FileWriter<'a> {
    /// The bytes already handed to the OS, in order, starting at offset zero
    /// of the staging file.
    pub closed spec fn flushed_bytes(self) -> Seq<u8> {
        self.flushed@
    }

    /// The bytes still sitting in the buffer.
    pub closed spec fn pending_bytes(self) -> Seq<u8> {
        self.buf@
    }

    /// Every byte this writer has accepted, in order: what commit publishes.
    pub open spec fn written_bytes(self) -> Seq<u8> {
        self.flushed_bytes() + self.pending_bytes()
    }

    /// The destination name the writer will commit to.
    pub closed spec fn spec_destname(self) -> Seq<char> {
        self.destname@
    }

    /// The prefix the visible temporary name will start with.
    pub closed spec fn spec_tmp_prefix(self) -> Seq<char> {
        self.tmp_prefix@
    }

    /// The suffix the visible temporary name will end with.
    pub closed spec fn spec_tmp_suffix(self) -> Seq<char> {
        self.tmp_suffix@
    }

    /// The writer's bookkeeping is consistent: the next flush offset equals
    /// the number of flushed bytes, and the total stays a valid file offset.
    pub closed spec fn wf(self) -> bool {
        &&& self.flushed_len as int == self.flushed@.len()
        &&& self.flushed@.len() + self.buf@.len() <= i64::MAX as int
    }

    /// The fields that a write must not disturb: where the writer points and
    /// how it will name its temporary file.
    pub open spec fn same_target(self, other: Self) -> bool {
        &&& self.spec_destname() == other.spec_destname()
        &&& self.spec_tmp_prefix() == other.spec_tmp_prefix()
        &&& self.spec_tmp_suffix() == other.spec_tmp_suffix()
    }

    /// A fresh writer over an already-created unnamed staging file, with the
    /// default temporary-name prefix and suffix.
    pub(crate) fn new(dir: &'a Dir, fd: i32, destname: String) -> (w: FileWriter<'a>)
        ensures
            w.wf(),
            w.written_bytes().len() == 0,
            w.spec_destname() == destname@,
            w.spec_tmp_prefix() == ".tmp."@,
            w.spec_tmp_suffix() == ".tmp"@,
    {
        FileWriter {
            dir,
            fd,
            buf: Vec::new(),
            flushed_len: 0,
            flushed: Ghost(Seq::empty()),
            destname,
            tmp_prefix: String::from_str(".tmp."),
            tmp_suffix: String::from_str(".tmp"),
            bomb: sys::new_bomb(
                "FileWriter must be explicitly completed/abandoned to ensure errors are checked",
            ),
        }
    }

    /// Accept bytes: they are appended to the writer's content in order, and
    /// a full buffer is flushed to the staging file.  Even when the flush
    /// fails, no byte is lost or reordered; the error can be retried or the
    /// writer abandoned.
    pub fn write(&mut self, data: &[u8]) -> (r: Result<(), i32>)
        requires
            old(self).wf(),
            old(self).written_bytes().len() + data@.len() <= i64::MAX as int,
        ensures
            final(self).wf(),
            final(self).same_target(*old(self)),
            final(self).written_bytes() == old(self).written_bytes() + data@,
    {
        let total = data.len();
        proof {
            assert(old(self).buf@ + data@.subrange(0, 0) =~= old(self).buf@);
        }
        let mut i: usize = 0;
        while i < total
            invariant
                i <= total,
                total == data@.len(),
                self.wf(),
                old(self).wf(),
                self.buf@ == old(self).buf@ + data@.subrange(0, i as int),
                self.flushed@ == old(self).flushed@,
                self.flushed_len == old(self).flushed_len,
                self.destname == old(self).destname,
                self.tmp_prefix == old(self).tmp_prefix,
                self.tmp_suffix == old(self).tmp_suffix,
                self.dir == old(self).dir,
                self.fd == old(self).fd,
                old(self).written_bytes().len() + data@.len() <= i64::MAX as int,
            decreases total - i,
        {
            let b = *slice_index_get(data, i);
            self.buf.push(b);
            proof {
                assert(self.buf@ =~= old(self).buf@ + data@.subrange(0, i as int + 1));
            }
            i = i + 1;
        }
        proof {
            assert(data@.subrange(0, total as int) =~= data@);
            assert(self.written_bytes() =~= old(self).written_bytes() + data@);
        }
        if self.buf.len() >= WRITE_BUF_CAP {
            match self.flush_buf() {
                Ok(u) => Ok(u),
                Err(e) => Err(e),
            }
        } else {
            Ok(())
        }
    }

    /// Hand the buffered bytes to the OS at the writer's current offset.  On
    /// success the buffer is empty; either way the writer's content is
    /// unchanged.
    fn flush_buf(&mut self) -> (r: Result<(), i32>)
        requires
            old(self).wf(),
        ensures
            final(self).wf(),
            final(self).same_target(*old(self)),
            final(self).written_bytes() == old(self).written_bytes(),
            final(self).fd == old(self).fd,
            final(self).dir == old(self).dir,
            r matches Ok(u) ==> final(self).pending_bytes().len() == 0,
    {
        let total = self.buf.len();
        let base = self.flushed_len;
        let mut done: usize = 0;
        while done < total
            invariant
                done <= total,
                total == self.buf@.len(),
                base == self.flushed_len,
                self == old(self),
                old(self).wf(),
            decreases total - done,
        {
            let part = slice_subrange(self.buf.as_slice(), done, total);
            match sys::pwrite_at(self.fd, part, base + done as u64) {
                Ok(n) => {
                    if n == 0 {
                        return Err(EIO);
                    }
                    done = done + n;
                },
                Err(e) => {
                    return Err(e);
                },
            }
        }
        self.flushed = Ghost(self.flushed@ + self.buf@);
        self.flushed_len = self.flushed_len + total as u64;
        self.buf.clear();
        proof {
            assert(self.written_bytes() =~= old(self).written_bytes());
        }
        Ok(())
    }

    /// Commit: flush the buffer, run the caller's hook on the staging file's
    /// raw descriptor (to set attributes or sync), give the staged file a
    /// fresh random visible name, and atomically rename that name over the
    /// destination.  On any failure the destination is untouched; after a
    /// failed rename the visible temporary name is removed again on a best
    /// effort basis.  A name collision is never surfaced: it is retried with
    /// a fresh name.
    pub fn complete_with<F: FnOnce(i32) -> Result<(), i32>>(self, f: F) -> (r: Result<
        (),
        i32,
    >)
        requires
            self.wf(),
            forall|fd: i32| #[trigger] call_requires(f, (fd,)),
        ensures
            r matches Ok(u) ==> exists|fd: i32| #[trigger] call_ensures(f, (fd,), Ok::<(), i32>(())),
    {
        let mut this = self;
        sys::defuse_bomb(&mut this.bomb);
        match this.flush_buf() {
            Ok(u) => u,
            Err(e) => {
                sys::close_fd(this.fd);
                return Err(e);
            },
        };
        match f(this.fd) {
            Ok(u) => {
                proof {
                    assert(call_ensures(f, (this.fd,), Ok::<(), i32>(())));
                }
                u
            },
            Err(e) => {
                sys::close_fd(this.fd);
                return Err(e);
            },
        };
        let dirfd = this.dir.raw_fd();
        let tmpname = match link_with_retry(
            dirfd,
            this.fd,
            this.tmp_prefix.as_str(),
            this.tmp_suffix.as_str(),
        ) {
            Ok(n) => n,
            Err(e) => {
                sys::close_fd(this.fd);
                return Err(e);
            },
        };
        match sys::rename_at(dirfd, tmpname.as_str(), this.destname.as_str()) {
            Ok(u) => {
                sys::close_fd(this.fd);
                Ok(u)
            },
            Err(e) => {
                // Best-effort cleanup of the visible temporary name; its own
                // error cannot be acted on and the rename error is the one
                // the caller needs.
                let cleanup = sys::unlink_at(dirfd, tmpname.as_str());
                match cleanup {
                    Ok(u) => u,
                    Err(ignored) => (),
                };
                sys::close_fd(this.fd);
                Err(e)
            },
        }
    }

    /// Commit with no hook: flush, link, rename.
    pub fn complete(self) -> (r: Result<(), i32>)
        requires
            self.wf(),
    {
        self.complete_with(|fd: i32| -> Result<(), i32> { Ok(()) })
    }

    /// Commit, explicitly syncing the staged content to the storage device
    /// before it is renamed into place.
    pub fn complete_sync(self) -> (r: Result<(), i32>)
        requires
            self.wf(),
    {
        self.complete_with(|fd: i32| -> Result<(), i32> { sys::fsync_fd(fd) })
    }

    /// Drop all buffered data and the staging file without touching the
    /// destination.  The staged file never had a name, so nothing visible is
    /// left behind.
    pub fn abandon(self) {
        let mut this = self;
        sys::defuse_bomb(&mut this.bomb);
        sys::close_fd(this.fd);
    }
}

} // verus!
