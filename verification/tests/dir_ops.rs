use nix::fcntl::OFlag;
use nix::sys::stat::Mode;
use openat_ext::dir::{Dir, OpenatDirExt, SimpleType};
use std::path::Path;

fn open_dir(path: &Path) -> Dir {
    let fd = nix::fcntl::open(path, OFlag::O_DIRECTORY | OFlag::O_RDONLY, Mode::empty()).unwrap();
    Dir::from_fd(fd)
}

#[test]
fn open_file_optional() {
    let td = tempfile::tempdir().unwrap();
    let d = open_dir(td.path());
    assert!(d.open_file_optional("foo").unwrap().is_none());
    d.write_file_contents("foo", 0o644, b"").unwrap();
    assert!(d.open_file_optional("foo").unwrap().is_some());
}

#[test]
fn remove_file_optional() {
    let td = tempfile::tempdir().unwrap();
    let d = open_dir(td.path());
    d.write_file_contents("foo", 0o644, b"").unwrap();
    assert!(d.open_file_optional("foo").unwrap().is_some());
    d.remove_file_optional("foo").unwrap();
    assert!(d.open_file_optional("foo").unwrap().is_none());
}

#[test]
fn metadata_optional() {
    let td = tempfile::tempdir().unwrap();
    let d = open_dir(td.path());
    assert!(d.metadata_optional("foo").unwrap().is_none());
    d.write_file_contents("foo", 0o644, b"").unwrap();
    assert!(d.metadata_optional("foo").unwrap().is_some());
}

#[test]
fn get_file_type() {
    let td = tempfile::tempdir().unwrap();
    let d = open_dir(td.path());
    d.write_file_contents("foo", 0o644, b"").unwrap();
    for x in d.list_dir(".").unwrap() {
        assert_eq!("foo", x.name);
        let t = d.get_file_type(&x).unwrap();
        assert_eq!(SimpleType::File, t);
    }
}

#[test]
fn ensure_dir_all() {
    let td = tempfile::tempdir().unwrap();
    let d = open_dir(td.path());
    let mode = 0o755;
    let p = "foo/bar/baz";
    d.ensure_dir_all(p, mode).unwrap();
    assert_eq!(d.metadata_optional(p).unwrap().unwrap().mode & !libc::S_IFMT, mode);
    d.ensure_dir_all(p, mode).unwrap();
    d.ensure_dir_all("foo/bar", mode).unwrap();
    d.ensure_dir_all("foo", mode).unwrap();
    d.ensure_dir_all("bar", 0o700).unwrap();
    assert_eq!(d.metadata_optional("bar").unwrap().unwrap().mode & !libc::S_IFMT, 0o700);
}

#[test]
fn ensure_dir_idempotent() {
    let td = tempfile::tempdir().unwrap();
    let d = open_dir(td.path());
    d.ensure_dir("dir", 0o755).unwrap();
    let first = d.metadata_optional("dir").unwrap().unwrap();
    d.ensure_dir("dir", 0o755).unwrap();
    let second = d.metadata_optional("dir").unwrap().unwrap();
    assert_eq!(first.mode, second.mode);
    assert!(second.simple_type() == SimpleType::Dir);
}

#[test]
fn exists_and_sub_dir() {
    let td = tempfile::tempdir().unwrap();
    let d = open_dir(td.path());
    assert!(!d.exists_at("sub").unwrap());
    assert!(d.sub_dir_optional("sub").unwrap().is_none());
    d.ensure_dir("sub", 0o755).unwrap();
    assert!(d.exists_at("sub").unwrap());
    let sub = d.sub_dir_optional("sub").unwrap().unwrap();
    sub.write_file_contents("inner", 0o644, b"x").unwrap();
    assert!(d.exists_at("sub/inner").unwrap());
    sub.close();
}

#[test]
fn genuine_errors_surface() {
    let td = tempfile::tempdir().unwrap();
    let d = open_dir(td.path());
    d.write_file_contents("plain", 0o644, b"data").unwrap();
    // A component of the path is a file, not a directory: ENOTDIR must come
    // through verbatim, not be mistaken for "not found".
    let e = d.metadata_optional("plain/sub").unwrap_err();
    assert_eq!(e, 20);
    let e = d.open_file_optional("plain/sub").unwrap_err();
    assert_eq!(e, 20);
    // Removing a directory through the file-removal helper is an error too.
    d.ensure_dir("adir", 0o755).unwrap();
    assert!(d.remove_file_optional("adir").is_err());
}

#[test]
fn optional_scenario() {
    let td = tempfile::tempdir().unwrap();
    let d = open_dir(td.path());
    assert!(d.open_file_optional("foo").unwrap().is_none());
    d.write_file_contents("foo", 0o644, b"hello").unwrap();
    let f = d.open_file_optional("foo").unwrap().unwrap();
    let content = f.read_to_end().unwrap();
    f.close();
    assert_eq!(content, b"hello");
    d.remove_file_optional("foo").unwrap();
    d.remove_file_optional("foo").unwrap();
    assert!(d.open_file_optional("foo").unwrap().is_none());
}

#[test]
fn ensure_dir_all_rejects_nul() {
    let td = tempfile::tempdir().unwrap();
    let d = open_dir(td.path());
    let e = d.ensure_dir_all("bad\0name", 0o755).unwrap_err();
    assert_eq!(e, 22);
    // Nothing was created.
    assert!(d.list_dir(".").unwrap().is_empty());
}

#[test]
fn ensure_dir_all_surfaces_other_errors() {
    let td = tempfile::tempdir().unwrap();
    let d = open_dir(td.path());
    d.write_file_contents("plain", 0o644, b"x").unwrap();
    // A path component is a file: the creation error comes through with its
    // own code, neither swallowed nor turned into "already exists".
    let e = d.ensure_dir_all("plain/sub", 0o755).unwrap_err();
    assert_eq!(e, 20);
}
