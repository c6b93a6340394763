use camino_anchored::{
    AbsUtf8PathBuf, AbsUtf8PathError, AbsUtf8PathErrorKind, CurrentDirError, NativePathErrorKind,
    RelUtf8PathError, RelUtf8PathErrorKind, ResolvePathError, ResolvePathErrorKind,
    TryFromPathBufError,
};
use std::io;
use std::path::PathBuf;

#[test]
fn absolute_path_error_display() {
    for (path, kind, expected) in [
        (
            "",
            AbsUtf8PathErrorKind::Empty,
            "expected an absolute path, but the path is empty",
        ),
        (
            "/a\0b",
            AbsUtf8PathErrorKind::ContainsNul,
            r#"expected an absolute path, but "/a\0b" contains a NUL byte"#,
        ),
        (
            "foo/bar",
            AbsUtf8PathErrorKind::NotAbsolute,
            "expected an absolute path, got `foo/bar`",
        ),
        (
            r"\foo",
            AbsUtf8PathErrorKind::RootRelative,
            r"expected an absolute path, but `\foo` is relative to the root of the current drive",
        ),
        (
            "C:foo",
            AbsUtf8PathErrorKind::DriveRelative,
            "expected an absolute path, but `C:foo` is relative to the current directory of its drive",
        ),
    ] {
        let error = AbsUtf8PathError::new(path.to_owned(), kind);
        assert_eq!(error.to_string(), expected, "{kind:?}");
    }
}

#[test]
fn relative_path_error_display() {
    for (path, kind, expected) in [
        (
            "",
            RelUtf8PathErrorKind::Empty,
            "expected a relative path, but the path is empty",
        ),
        (
            "a\0b",
            RelUtf8PathErrorKind::ContainsNul,
            r#"expected a relative path, but "a\0b" contains a NUL byte"#,
        ),
        (
            "/foo",
            RelUtf8PathErrorKind::Absolute,
            "expected a relative path, but `/foo` is absolute",
        ),
        (
            r"\foo",
            RelUtf8PathErrorKind::RootRelative,
            r"expected a relative path, but `\foo` is relative to the root of the current drive (remove the leading separator to make it relative)",
        ),
        (
            "C:foo",
            RelUtf8PathErrorKind::DriveRelative,
            "expected a relative path, but `C:foo` is relative to the current directory of its drive (remove the drive prefix to make it relative)",
        ),
    ] {
        let error = RelUtf8PathError::new(path.to_owned(), kind);
        assert_eq!(error.to_string(), expected, "{kind:?}");
    }
}

fn native_invalid(path: &str, kind: AbsUtf8PathErrorKind) -> ResolvePathErrorKind {
    ResolvePathErrorKind::Native(NativePathErrorKind::Invalid(AbsUtf8PathError::new(
        path.to_owned(),
        kind,
    )))
}

#[test]
fn resolve_path_error_display() {
    for (input, kind, expected) in [
        ("", ResolvePathErrorKind::Empty, "cannot resolve an empty path"),
        (
            "a\0b",
            ResolvePathErrorKind::ContainsNul,
            r#"cannot resolve "a\0b": path contains a NUL byte"#,
        ),
        (
            "config.toml",
            ResolvePathErrorKind::Native(NativePathErrorKind::Io(io::Error::from(
                io::ErrorKind::NotFound,
            ))),
            "failed to resolve `config.toml` to an absolute path",
        ),
        (
            "config.toml",
            native_invalid(
                "(unreachable)/repo/config.toml",
                AbsUtf8PathErrorKind::NotAbsolute,
            ),
            "resolved `config.toml` to an invalid path (the current directory may be unreachable)",
        ),
        (
            "config.toml",
            native_invalid("", AbsUtf8PathErrorKind::Empty),
            "resolved `config.toml` to an invalid path",
        ),
        (
            "config.toml",
            native_invalid("/repo/a\0b", AbsUtf8PathErrorKind::ContainsNul),
            "resolved `config.toml` to an invalid path",
        ),
    ] {
        let error = ResolvePathError::new(input.to_owned(), kind);
        assert_eq!(error.to_string(), expected, "{error:?}");
    }
}

#[test]
fn current_dir_error_display() {
    let invalid = |path: &str, kind| {
        CurrentDirError::new(NativePathErrorKind::Invalid(AbsUtf8PathError::new(
            path.to_owned(),
            kind,
        )))
    };
    for (error, expected) in [
        (
            CurrentDirError::new(NativePathErrorKind::Io(io::Error::from(
                io::ErrorKind::NotFound,
            ))),
            "failed to read the current directory",
        ),
        (
            invalid("(unreachable)/repo", AbsUtf8PathErrorKind::NotAbsolute),
            "current directory is invalid (it may be unreachable)",
        ),
        (
            invalid(r"\repo", AbsUtf8PathErrorKind::RootRelative),
            "current directory is invalid (it may be unreachable)",
        ),
        (
            invalid("", AbsUtf8PathErrorKind::Empty),
            "current directory is invalid",
        ),
        (
            invalid("/a\0b", AbsUtf8PathErrorKind::ContainsNul),
            "current directory is invalid",
        ),
    ] {
        assert_eq!(error.to_string(), expected, "{error:?}");
    }
}

#[test]
fn error_accessors_return_what_was_given() {
    let error = AbsUtf8PathError::new("foo/bar".to_owned(), AbsUtf8PathErrorKind::NotAbsolute);
    assert_eq!(error.path(), "foo/bar");
    assert_eq!(error.kind(), AbsUtf8PathErrorKind::NotAbsolute);
    assert_eq!(error.into_path(), "foo/bar");

    let error = RelUtf8PathError::new("/foo".to_owned(), RelUtf8PathErrorKind::Absolute);
    assert_eq!(error.path(), "/foo");
    assert_eq!(error.kind(), RelUtf8PathErrorKind::Absolute);
    assert_eq!(error.into_path(), "/foo");

    let error = ResolvePathError::new("x".to_owned(), ResolvePathErrorKind::Empty);
    assert_eq!(error.input(), "x");
    assert!(matches!(error.kind(), ResolvePathErrorKind::Empty));
    assert_eq!(error.into_input(), "x");
}

#[test]
fn errors_compare_paths_by_components() {
    let a = AbsUtf8PathError::new("foo//bar/".to_owned(), AbsUtf8PathErrorKind::NotAbsolute);
    let b = AbsUtf8PathError::new("foo/bar".to_owned(), AbsUtf8PathErrorKind::NotAbsolute);
    let c = AbsUtf8PathError::new("foo/bar".to_owned(), AbsUtf8PathErrorKind::Empty);
    assert_eq!(a, b);
    assert_ne!(b, c);
}

#[test]
fn try_from_path_buf_error_display() {
    let error = AbsUtf8PathBuf::try_from_path_buf(PathBuf::from("foo/bar"))
        .expect_err("relative path is rejected");
    assert_eq!(error.to_string(), "expected an absolute path, got `foo/bar`");
    assert!(matches!(error, TryFromPathBufError::Invalid(_)));
}
