//! The directory capability and its helpers.
//!
//! A [`Dir`] is an open directory descriptor; every name this library touches
//! is resolved against one, never against the process working directory.  The
//! helpers translate the two benign error codes ("not found", "already
//! exists") into plain values and leave every other code untouched.

use vstd::prelude::*;

verus! {

use crate::errno::EEXIST;
use crate::errno::EINVAL;
use crate::errno::ENOENT;
use crate::errno::ignore_benign;
use crate::errno::is_already_exists;
use crate::errno::is_not_found;
use crate::errno::not_found_optional;
use crate::file::FileFd;
use crate::sys;
use crate::writer::FileWriter;
use vstd::string::StringExecFns;

/// An open directory, held as its raw descriptor.  All operations resolve
/// names relative to it.  The handle is released by [`Dir::close`].
#[derive(Debug)]
pub struct Dir {
    fd: i32,
}

impl Dir {
    /// The raw descriptor this capability stands for.
    pub closed spec fn spec_fd(self) -> i32 {
        self.fd
    }

    /// Wrap an already-open directory descriptor.  The caller passes
    /// ownership: the capability's `close` releases it.
    pub fn from_fd(fd: i32) -> (d: Dir)
        ensures
            d.spec_fd() == fd,
    {
        Dir { fd }
    }

    /// The raw descriptor, for handing to code outside the library.
    pub fn raw_fd(&self) -> (fd: i32)
        ensures
            fd == self.spec_fd(),
    {
        self.fd
    }

    /// Release the descriptor.
    pub fn close(self) {
        sys::close_fd(self.fd)
    }
}

/// The file type of a directory entry, reduced to what the library's callers
/// distinguish: regular file, directory, symbolic link, or anything else.
#[derive(Clone, Copy, Debug, PartialEq, Eq, Structural)]
pub enum SimpleType {
    /// A symbolic link (never followed by the helpers here).
    Symlink,
    /// A directory.
    Dir,
    /// A regular file.
    File,
    /// Any other kind of object (socket, device, fifo, ...).
    Other,
}

/// The bits of a stat result that the library's logic reads, as plain values.
#[derive(Clone, Copy, Debug)]
pub struct Metadata {
    /// The full `st_mode` word: file-type bits and permission bits.
    pub mode: u32,
    /// The object's size in bytes.
    pub size: u64,
}

/// The file-type bits of a mode word (the `S_IFMT` mask).
pub const MODE_TYPE_MASK: u32 = 0o170000;

/// The file-type bits that name a regular file.
pub const MODE_TYPE_FILE: u32 = 0o100000;

/// The file-type bits that name a directory.
pub const MODE_TYPE_DIR: u32 = 0o040000;

/// The file-type bits that name a symbolic link.
pub const MODE_TYPE_SYMLINK: u32 = 0o120000;

/// The file type that a mode word classifies as.
pub open spec fn spec_simple_type_of_mode(mode: u32) -> SimpleType {
    if mode & MODE_TYPE_MASK == MODE_TYPE_FILE {
        SimpleType::File
    } else if mode & MODE_TYPE_MASK == MODE_TYPE_DIR {
        SimpleType::Dir
    } else if mode & MODE_TYPE_MASK == MODE_TYPE_SYMLINK {
        SimpleType::Symlink
    } else {
        SimpleType::Other
    }
}

/// Classify a mode word by its file-type bits.
pub fn simple_type_of_mode(mode: u32) -> (t: SimpleType)
    ensures
        t == spec_simple_type_of_mode(mode),
{
    if mode & MODE_TYPE_MASK == MODE_TYPE_FILE {
        SimpleType::File
    } else if mode & MODE_TYPE_MASK == MODE_TYPE_DIR {
        SimpleType::Dir
    } else if mode & MODE_TYPE_MASK == MODE_TYPE_SYMLINK {
        SimpleType::Symlink
    } else {
        SimpleType::Other
    }
}

impl Metadata {
    /// The file type these metadata describe.
    pub fn simple_type(&self) -> (t: SimpleType)
        ensures
            t == spec_simple_type_of_mode(self.mode),
    {
        simple_type_of_mode(self.mode)
    }
}

/// One directory entry, as plain values: its name and, where the filesystem
/// stored one in the entry itself, its type hint.
pub struct DirEntry {
    /// The entry's file name.
    pub name: String,
    /// The type recorded in the directory entry, if the filesystem keeps it
    /// there; `None` means only a stat call can tell.
    pub type_hint: Option<SimpleType>,
}

/// The name of the directory itself or of its parent inside a listing: "." or
/// "..".
pub open spec fn is_dot_name(s: Seq<char>) -> bool {
    (s.len() == 1 && s[0] == '.') || (s.len() == 2 && s[0] == '.' && s[1] == '.')
}

/// Whether a file name is one of the two dot entries.
pub fn is_dot_entry(name: &str) -> (b: bool)
    ensures
        b == is_dot_name(name@),
{
    let n = name.unicode_len();
    if n == 1 {
        name.get_char(0) == '.'
    } else if n == 2 {
        name.get_char(0) == '.' && name.get_char(1) == '.'
    } else {
        false
    }
}

/// The position of the last path separator in a name, or -1 when it has none.
pub open spec fn last_slash(s: Seq<char>) -> int
    decreases s.len(),
{
    if s.len() == 0 {
        -1
    } else if s[s.len() - 1] == '/' {
        s.len() - 1
    } else {
        last_slash(s.drop_last())
    }
}

proof fn lemma_last_slash_at(s: Seq<char>, k: int)
    requires
        0 <= k < s.len(),
        s[k] == '/',
        forall|j: int| k < j < s.len() ==> s[j] != '/',
    ensures
        last_slash(s) == k,
    decreases s.len(),
{
    if k < s.len() - 1 {
        lemma_last_slash_at(s.drop_last(), k);
    }
}

proof fn lemma_no_slash(s: Seq<char>)
    requires
        forall|j: int| 0 <= j < s.len() ==> s[j] != '/',
    ensures
        last_slash(s) == -1,
    decreases s.len(),
{
    if s.len() > 0 {
        lemma_no_slash(s.drop_last());
    }
}

/// The portion of the path before its last separator, or nothing when the
/// path has no separator left.  `"a/b/c"` gives `"a/b"`, `"a"` gives nothing;
/// the parent of `"/x"` is the empty string, at which the recursive walk of
/// [`impl_ensure_dir_all`] stops.
pub fn parent_of<'s>(p: &'s str) -> (r: Option<&'s str>)
    ensures
        match r {
            Some(parent) => {
                &&& last_slash(p@) >= 0
                &&& parent@ == p@.subrange(0, last_slash(p@))
                &&& parent@.len() < p@.len()
            },
            None => last_slash(p@) == -1,
        },
{
    let n = p.unicode_len();
    let mut i: usize = n;
    while i > 0
        invariant
            i <= n,
            n == p@.len(),
            forall|j: int| i <= j < n ==> p@[j] != '/',
        decreases i,
    {
        if p.get_char(i - 1) == '/' {
            proof {
                lemma_last_slash_at(p@, i - 1);
            }
            return Some(p.substring_char(0, i - 1));
        }
        i = i - 1;
    }
    proof {
        lemma_no_slash(p@);
    }
    None
}

/// A name that holds an interior NUL character: no syscall can take it, so
/// the recursive directory creation rejects it up front with the
/// invalid-argument code, before any directory is touched.
pub open spec fn has_nul(s: Seq<char>) -> bool {
    exists|i: int| 0 <= i < s.len() && s[i] == '\0'
}

/// Whether a name holds an interior NUL character.
pub fn contains_nul(p: &str) -> (b: bool)
    ensures
        b == has_nul(p@),
{
    let n = p.unicode_len();
    let mut i: usize = 0;
    while i < n
        invariant
            i <= n,
            n == p@.len(),
            forall|j: int| 0 <= j < i ==> p@[j] != '\0',
        decreases n - i,
    {
        if p.get_char(i) == '\0' {
            proof {
                assert(has_nul(p@)) by {
                    assert(p@[i as int] == '\0');
                }
            }
            return true;
        }
        i = i + 1;
    }
    false
}

/// What the first, optimistic creation attempt's error means for
/// [`OpenatDirExt::ensure_dir_all`].
#[derive(Clone, Copy, Debug, PartialEq, Eq, Structural)]
pub enum DirCreateAction {
    /// The directory is already there: the work is done.
    AlreadyDone,
    /// A parent is missing: create the ancestors root-ward, then retry.
    CreateParents,
    /// Surface the error to the caller as it is, code preserved.
    Surface,
}

/// The decision rule for the optimistic creation attempt: "already exists"
/// means the work is done, "not found" means the missing parents must be
/// created first, and every other code is surfaced verbatim.
pub open spec fn spec_dir_create_action(e: i32) -> DirCreateAction {
    if is_already_exists(e) {
        DirCreateAction::AlreadyDone
    } else if is_not_found(e) {
        DirCreateAction::CreateParents
    } else {
        DirCreateAction::Surface
    }
}

/// Decide what a failed optimistic directory creation means.
pub fn classify_dir_create_error(e: i32) -> (a: DirCreateAction)
    ensures
        a == spec_dir_create_action(e),
{
    if e == EEXIST {
        DirCreateAction::AlreadyDone
    } else if e == ENOENT {
        DirCreateAction::CreateParents
    } else {
        DirCreateAction::Surface
    }
}

/// The helpers a directory capability offers: error-code translation for the
/// common cases, idempotent directory creation, listing, and the entry point
/// of the atomic writer.
pub trait OpenatDirExt {
    /// Open a file for reading; a missing name is an absent value, not an
    /// error, and "not found" is never surfaced as an error.
    fn open_file_optional(&self, p: &str) -> (r: Result<Option<FileFd>, i32>)
        ensures
            r matches Err(e) ==> !is_not_found(e),
            r matches Ok(f) ==> (f matches Some(f) ==> f.spec_fd() >= 0),
    ;

    /// Remove a file; a missing name already counts as removed, and "not
    /// found" is never surfaced as an error.
    fn remove_file_optional(&self, p: &str) -> (r: Result<(), i32>)
        ensures
            r matches Err(e) ==> !is_not_found(e),
    ;

    /// Open a sub-directory; a missing name is an absent value, not an error.
    fn sub_dir_optional(&self, p: &str) -> (r: Result<Option<Dir>, i32>)
        ensures
            r matches Err(e) ==> !is_not_found(e),
            r matches Ok(d) ==> (d matches Some(d) ==> d.spec_fd() >= 0),
    ;

    /// Stat a name; a missing name is an absent value, not an error.
    fn metadata_optional(&self, p: &str) -> (r: Result<Option<Metadata>, i32>)
        ensures
            r matches Err(e) ==> !is_not_found(e),
    ;

    /// The type of a listed entry: the hint recorded in the entry when there
    /// is one, else what a stat of the name reports.
    fn get_file_type(&self, e: &DirEntry) -> (r: Result<SimpleType, i32>)
        ensures
            e.type_hint matches Some(t) ==> r == Ok::<SimpleType, i32>(t),
            r matches Err(err) ==> e.type_hint is None,
    ;

    /// Whether the name exists (as any kind of object; symbolic links are not
    /// followed).
    fn exists_at(&self, p: &str) -> (r: Result<bool, i32>)
        ensures
            r matches Err(e) ==> !is_not_found(e),
    ;

    /// Create a directory; one that already exists counts as created.
    fn ensure_dir(&self, p: &str, mode: u32) -> (r: Result<(), i32>)
        ensures
            r matches Err(e) ==> !is_already_exists(e),
    ;

    /// Create a directory and every missing parent; directories that already
    /// exist count as created.  A name holding an interior NUL character is
    /// rejected with the invalid-argument code before anything is touched.
    fn ensure_dir_all(&self, p: &str, mode: u32) -> (r: Result<(), i32>)
        ensures
            r matches Err(e) ==> !is_already_exists(e),
            has_nul(p@) ==> r == Err::<(), i32>(EINVAL),
    ;

    /// List the entries of a directory, without the two dot entries.
    fn list_dir(&self, p: &str) -> (r: Result<Vec<DirEntry>, i32>)
        ensures
            r matches Ok(v) ==> forall|i: int|
                0 <= i < v@.len() ==> !is_dot_name(#[trigger] v@[i].name@),
    ;

    /// Start an atomic replacement of `destname`: stage content in an
    /// unnamed temporary file created with the given permission bits.  The
    /// destination is not touched before the writer commits.
    fn new_file_writer<'a>(&'a self, destname: &str, mode: u32) -> (r: Result<
        FileWriter<'a>,
        i32,
    >)
        ensures
            r matches Ok(w) ==> {
                &&& w.wf()
                &&& w.written_bytes().len() == 0
                &&& w.spec_destname() == destname@
                &&& w.spec_tmp_prefix() == ".tmp."@
                &&& w.spec_tmp_suffix() == ".tmp"@
            },
    ;
}

impl OpenatDirExt for Dir {
    fn open_file_optional(&self, p: &str) -> (r: Result<Option<FileFd>, i32>) {
        match not_found_optional(sys::openat_read(self.fd, p)) {
            Ok(Some(fd)) => Ok(Some(FileFd::from_fd(fd))),
            Ok(None) => Ok(None),
            Err(e) => Err(e),
        }
    }

    fn remove_file_optional(&self, p: &str) -> (r: Result<(), i32>) {
        ignore_benign(sys::unlink_at(self.fd, p), ENOENT)
    }

    fn sub_dir_optional(&self, p: &str) -> (r: Result<Option<Dir>, i32>) {
        match not_found_optional(sys::openat_dir(self.fd, p)) {
            Ok(Some(fd)) => Ok(Some(Dir::from_fd(fd))),
            Ok(None) => Ok(None),
            Err(e) => Err(e),
        }
    }

    fn metadata_optional(&self, p: &str) -> (r: Result<Option<Metadata>, i32>) {
        not_found_optional(sys::stat_at(self.fd, p))
    }

    fn get_file_type(&self, e: &DirEntry) -> (r: Result<SimpleType, i32>) {
        match e.type_hint {
            Some(t) => Ok(t),
            None => match sys::stat_at(self.fd, e.name.as_str()) {
                Ok(md) => Ok(simple_type_of_mode(md.mode)),
                Err(err) => Err(err),
            },
        }
    }

    fn exists_at(&self, p: &str) -> (r: Result<bool, i32>) {
        match not_found_optional(sys::stat_at(self.fd, p)) {
            Ok(Some(_)) => Ok(true),
            Ok(None) => Ok(false),
            Err(e) => Err(e),
        }
    }

    fn ensure_dir(&self, p: &str, mode: u32) -> (r: Result<(), i32>) {
        ignore_benign(sys::mkdir_at(self.fd, p, mode), EEXIST)
    }

    fn ensure_dir_all(&self, p: &str, mode: u32) -> (r: Result<(), i32>) {
        if contains_nul(p) {
            return Err(EINVAL);
        }
        // One direct creation first: it succeeds, or tells that the work is
        // already done, on the common paths without touching any ancestor.
        match sys::mkdir_at(self.fd, p, mode) {
            Ok(u) => Ok(u),
            Err(e) => match classify_dir_create_error(e) {
                DirCreateAction::AlreadyDone => Ok(()),
                DirCreateAction::CreateParents => impl_ensure_dir_all(self, p, mode),
                DirCreateAction::Surface => Err(e),
            },
        }
    }

    fn list_dir(&self, p: &str) -> (r: Result<Vec<DirEntry>, i32>) {
        let entries = match sys::read_dir_entries(self.fd, p) {
            Ok(v) => v,
            Err(e) => {
                return Err(e);
            },
        };
        let mut out: Vec<DirEntry> = Vec::new();
        let mut rest = entries;
        while rest.len() > 0
            invariant
                forall|i: int| 0 <= i < out@.len() ==> !is_dot_name(#[trigger] out@[i].name@),
            decreases rest@.len(),
        {
            match rest.pop() {
                Some(raw) => {
                    let e = sys::entry_info(&raw);
                    if !is_dot_entry(e.name.as_str()) {
                        out.push(e);
                    }
                },
                None => {},
            }
        }
        Ok(out)
    }

    fn new_file_writer<'a>(&'a self, destname: &str, mode: u32) -> (r: Result<
        FileWriter<'a>,
        i32,
    >) {
        match sys::open_tmpfile(self.fd, mode) {
            Ok(tmpf) => Ok(FileWriter::new(self, tmpf, String::from_str(destname))),
            Err(e) => Err(e),
        }
    }
}

/// Walk up the path components, creating each directory in turn.  This is the
/// pessimistic path, taken only after a direct creation failed for a missing
/// parent; the common cases never reach it.
pub(crate) fn impl_ensure_dir_all(d: &Dir, p: &str, mode: u32) -> (r: Result<(), i32>)
    ensures
        r matches Err(e) ==> !is_already_exists(e),
    decreases p@.len(),
{
    match parent_of(p) {
        Some(parent) => {
            if !parent.is_empty() {
                match impl_ensure_dir_all(d, parent, mode) {
                    Ok(u) => u,
                    Err(e) => {
                        return Err(e);
                    },
                };
            }
        },
        None => {},
    }
    d.ensure_dir(p, mode)
}

impl Dir {
    /// Atomically create or replace `destname` with the provided contents:
    /// stage them in an unnamed temporary file, then publish with one rename.
    pub fn write_file_contents(&self, destname: &str, mode: u32, contents: &[u8]) -> (r: Result<
        (),
        i32,
    >)
        requires
            contents@.len() <= i64::MAX as int,
    {
        let mut w = match self.new_file_writer(destname, mode) {
            Ok(w) => w,
            Err(e) => {
                return Err(e);
            },
        };
        match w.write(contents) {
            Ok(u) => w.complete(),
            Err(e) => {
                w.abandon();
                Err(e)
            },
        }
    }

    /// Atomically create or replace `destname`, letting `f` produce the
    /// content through the writer it is handed.  When `f` succeeds the writer
    /// is committed; when it fails the writer is abandoned and the
    /// destination stays untouched.  The content is not explicitly synced to
    /// disk; see [`Dir::write_file_with_sync`] for that.
    pub fn write_file_with<'a, T, E: From<i32>, F: FnOnce(FileWriter<'a>) -> (
        FileWriter<'a>,
        Result<T, E>,
    )>(&'a self, destname: &str, mode: u32, f: F) -> (r: Result<T, E>)
        requires
            forall|w: FileWriter<'a>| w.wf() ==> #[trigger] call_requires(f, (w,)),
            forall|w: FileWriter<'a>, out: (FileWriter<'a>, Result<T, E>)|
                #[trigger] call_ensures(f, (w,), out) ==> out.0.wf(),
        ensures
            r matches Ok(v) ==> exists|w: FileWriter<'a>, out: (FileWriter<'a>, Result<T, E>)|
                #[trigger] call_ensures(f, (w,), out) && out.1 == Ok::<T, E>(v),
    {
        let w0 = match self.new_file_writer(destname, mode) {
            Ok(w) => w,
            Err(e) => {
                return Err(E::from(e));
            },
        };
        let ghost gw0 = w0;
        let out = f(w0);
        let ghost gout = out;
        let (w1, res) = out;
        match res {
            Ok(v) => match w1.complete() {
                Ok(u) => {
                    proof {
                        assert(call_ensures(f, (gw0,), gout));
                    }
                    Ok(v)
                },
                Err(e) => Err(E::from(e)),
            },
            Err(e) => {
                w1.abandon();
                Err(e)
            },
        }
    }

    /// Like [`Dir::write_file_with`], but the staged content is synced to the
    /// storage device before it is renamed into place.
    pub fn write_file_with_sync<'a, T, E: From<i32>, F: FnOnce(FileWriter<'a>) -> (
        FileWriter<'a>,
        Result<T, E>,
    )>(&'a self, destname: &str, mode: u32, f: F) -> (r: Result<T, E>)
        requires
            forall|w: FileWriter<'a>| w.wf() ==> #[trigger] call_requires(f, (w,)),
            forall|w: FileWriter<'a>, out: (FileWriter<'a>, Result<T, E>)|
                #[trigger] call_ensures(f, (w,), out) ==> out.0.wf(),
        ensures
            r matches Ok(v) ==> exists|w: FileWriter<'a>, out: (FileWriter<'a>, Result<T, E>)|
                #[trigger] call_ensures(f, (w,), out) && out.1 == Ok::<T, E>(v),
    {
        let w0 = match self.new_file_writer(destname, mode) {
            Ok(w) => w,
            Err(e) => {
                return Err(E::from(e));
            },
        };
        let ghost gw0 = w0;
        let out = f(w0);
        let ghost gout = out;
        let (w1, res) = out;
        match res {
            Ok(v) => match w1.complete_sync() {
                Ok(u) => {
                    proof {
                        assert(call_ensures(f, (gw0,), gout));
                    }
                    Ok(v)
                },
                Err(e) => Err(E::from(e)),
            },
            Err(e) => {
                w1.abandon();
                Err(e)
            },
        }
    }
}

} // verus!
