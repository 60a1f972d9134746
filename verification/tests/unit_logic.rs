use openat_ext::copy::{classify_fast_copy_error, CopyErrorAction};
use openat_ext::dir::{
    classify_dir_create_error, contains_nul, is_dot_entry, parent_of, simple_type_of_mode,
    DirCreateAction, SimpleType,
};
use openat_ext::errno::{
    ignore_benign, is_downgrade_errno, not_found_optional, EEXIST, EINVAL, ENOENT, ENOSYS, EPERM,
    EXDEV,
};

#[test]
fn not_found_translation_values() {
    assert_eq!(not_found_optional::<u8>(Ok(7)), Ok(Some(7)));
    assert_eq!(not_found_optional::<u8>(Err(ENOENT)), Ok(None));
    assert_eq!(not_found_optional::<u8>(Err(EPERM)), Err(EPERM));
    assert_eq!(not_found_optional::<u8>(Err(EEXIST)), Err(EEXIST));
}

#[test]
fn benign_translation_values() {
    assert_eq!(ignore_benign(Ok(()), EEXIST), Ok(()));
    assert_eq!(ignore_benign(Err(EEXIST), EEXIST), Ok(()));
    assert_eq!(ignore_benign(Err(EPERM), EEXIST), Err(EPERM));
    assert_eq!(ignore_benign(Err(ENOENT), EEXIST), Err(ENOENT));
}

#[test]
fn fast_copy_error_decision() {
    for e in [ENOSYS, EPERM, EINVAL, EXDEV] {
        assert_eq!(classify_fast_copy_error(e, 0), CopyErrorAction::Fallback);
        assert_eq!(classify_fast_copy_error(e, 1), CopyErrorAction::Surface);
    }
    assert_eq!(classify_fast_copy_error(ENOENT, 0), CopyErrorAction::Surface);
    assert_eq!(classify_fast_copy_error(5, 0), CopyErrorAction::Surface);
}

#[test]
fn downgrade_decision() {
    assert!(is_downgrade_errno(ENOSYS));
    assert!(is_downgrade_errno(EPERM));
    assert!(!is_downgrade_errno(EXDEV));
    assert!(!is_downgrade_errno(EINVAL));
    assert!(!is_downgrade_errno(ENOENT));
}

#[test]
fn mode_classification() {
    assert_eq!(simple_type_of_mode(0o100644), SimpleType::File);
    assert_eq!(simple_type_of_mode(0o040755), SimpleType::Dir);
    assert_eq!(simple_type_of_mode(0o120777), SimpleType::Symlink);
    assert_eq!(simple_type_of_mode(0o140644), SimpleType::Other);
    assert_eq!(simple_type_of_mode(0o010600), SimpleType::Other);
}

#[test]
fn parent_decomposition() {
    assert_eq!(parent_of("a/b/c"), Some("a/b"));
    assert_eq!(parent_of("a/b"), Some("a"));
    assert_eq!(parent_of("a"), None);
    assert_eq!(parent_of("/x"), Some(""));
    assert_eq!(parent_of("a/"), Some("a"));
    assert_eq!(parent_of(""), None);
}

#[test]
fn dot_entry_names() {
    assert!(is_dot_entry("."));
    assert!(is_dot_entry(".."));
    assert!(!is_dot_entry("..."));
    assert!(!is_dot_entry(".hidden"));
    assert!(!is_dot_entry("plain"));
}

#[test]
fn dir_create_decision() {
    assert_eq!(classify_dir_create_error(EEXIST), DirCreateAction::AlreadyDone);
    assert_eq!(classify_dir_create_error(ENOENT), DirCreateAction::CreateParents);
    assert_eq!(classify_dir_create_error(EPERM), DirCreateAction::Surface);
    assert_eq!(classify_dir_create_error(EINVAL), DirCreateAction::Surface);
    assert_eq!(classify_dir_create_error(20), DirCreateAction::Surface);
}

#[test]
fn nul_detection() {
    assert!(contains_nul("a\0b"));
    assert!(contains_nul("\0"));
    assert!(!contains_nul("a/b"));
    assert!(!contains_nul(""));
}
