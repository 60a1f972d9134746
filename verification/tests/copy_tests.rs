use nix::fcntl::OFlag;
use nix::sys::stat::Mode;
use openat_ext::copy::{fallback_file_copy, CopyCache, FileExt};
use openat_ext::dir::{Dir, OpenatDirExt};
use openat_ext::file::FileFd;
use std::path::Path;

fn open_dir(path: &Path) -> Dir {
    let fd = nix::fcntl::open(path, OFlag::O_DIRECTORY | OFlag::O_RDONLY, Mode::empty()).unwrap();
    Dir::from_fd(fd)
}

fn open_writable(d: &Dir, name: &str) -> FileFd {
    let fd = nix::fcntl::openat(
        d.raw_fd(),
        name,
        OFlag::O_CREAT | OFlag::O_RDWR | OFlag::O_TRUNC,
        Mode::from_bits_truncate(0o644),
    )
    .unwrap();
    FileFd::from_fd(fd)
}

fn read_back(d: &Dir, name: &str) -> Vec<u8> {
    let f = d.open_file_optional(name).unwrap().unwrap();
    let content = f.read_to_end().unwrap();
    f.close();
    content
}

fn patterned(len: usize) -> Vec<u8> {
    (0..len).map(|i| ((i * 31 + 7) % 241) as u8).collect()
}

#[test]
fn copy_fallback() {
    let td = tempfile::tempdir().unwrap();
    let d = open_dir(td.path());
    let data = patterned(30000);
    d.write_file_contents("source", 0o644, &data).unwrap();
    {
        let src = d.open_file_optional("source").unwrap().unwrap();
        let dest = open_writable(&d, "bash");
        let n = fallback_file_copy(&src, &dest).unwrap();
        assert_eq!(n, data.len() as u64);
        src.close();
        dest.close();
    }
    let srcbuf = read_back(&d, "source");
    let destbuf = read_back(&d, "bash");
    assert_eq!(srcbuf.len(), destbuf.len());
    assert_eq!(&srcbuf, &destbuf);
}

#[test]
fn copy_roundtrip_empty() {
    let td = tempfile::tempdir().unwrap();
    let d = open_dir(td.path());
    d.write_file_contents("empty", 0o644, b"").unwrap();
    let src = d.open_file_optional("empty").unwrap().unwrap();
    let dest = open_writable(&d, "empty_copy");
    let mut cache = CopyCache::new();
    let n = src.copy_to(&dest, &mut cache).unwrap();
    assert_eq!(n, 0);
    src.close();
    dest.close();
    assert_eq!(read_back(&d, "empty_copy"), b"");
}

#[test]
fn copy_roundtrip_large() {
    let td = tempfile::tempdir().unwrap();
    let d = open_dir(td.path());
    // Larger than one fallback chunk, and not a multiple of it.
    let data = patterned(50000);
    d.write_file_contents("source", 0o644, &data).unwrap();
    let src = d.open_file_optional("source").unwrap().unwrap();
    let dest = open_writable(&d, "copied");
    let mut cache = CopyCache::new();
    let n = src.copy_to(&dest, &mut cache).unwrap();
    assert_eq!(n, data.len() as u64);
    src.close();
    dest.close();
    assert_eq!(read_back(&d, "copied"), data);
}

#[test]
fn fallback_equivalence() {
    let td = tempfile::tempdir().unwrap();
    let d = open_dir(td.path());
    let data = patterned(20001);
    d.write_file_contents("source", 0o644, &data).unwrap();

    let src = d.open_file_optional("source").unwrap().unwrap();
    let fast_dest = open_writable(&d, "via_fast");
    let mut cache = CopyCache::new();
    let fast_n = src.copy_to(&fast_dest, &mut cache).unwrap();
    fast_dest.close();

    let slow_dest = open_writable(&d, "via_fallback");
    let slow_n = fallback_file_copy(&src, &slow_dest).unwrap();
    slow_dest.close();
    src.close();

    assert_eq!(fast_n, slow_n);
    assert_eq!(read_back(&d, "via_fast"), read_back(&d, "via_fallback"));
    assert_eq!(read_back(&d, "via_fast"), data);
}

#[test]
fn copy_reports_source_length() {
    let td = tempfile::tempdir().unwrap();
    let d = open_dir(td.path());
    let data = patterned(8192);
    d.write_file_contents("source", 0o644, &data).unwrap();
    let src = d.open_file_optional("source").unwrap().unwrap();
    let dest = open_writable(&d, "dst");
    let mut cache = CopyCache::new();
    let n = src.copy_to(&dest, &mut cache).unwrap();
    assert_eq!(n, 8192);
    assert_eq!(src.len().unwrap(), 8192);
    src.close();
    dest.close();
}
