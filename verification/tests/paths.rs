use camino_anchored::{
    has_double_root, trim_trailing_separators, AbsUtf8PathBuf, AbsUtf8PathErrorKind, NativePathErrorKind,
    RelUtf8PathBuf, RelUtf8PathErrorKind, ResolvePathErrorKind, TryFromPathBufError,
};
use camino_anchored::text::{
    contains_char, contains_dot_component, is_separator, name_count, skip_names,
};
use std::path::PathBuf;

const ABSOLUTE: &str = "/foo/bar";
const ABSOLUTE_WITH_NUL: &str = "/a\0b";

#[derive(Debug, PartialEq, Eq)]
enum PathKind {
    Absolute,
    Relative,
    Neither(RelUtf8PathErrorKind),
}

fn classify(input: &str) -> PathKind {
    match (AbsUtf8PathBuf::new(input), RelUtf8PathBuf::new(input)) {
        (Ok(_), Err(relative_error)) => {
            assert_eq!(relative_error.kind(), RelUtf8PathErrorKind::Absolute);
            PathKind::Absolute
        }
        (Err(_), Ok(_)) => PathKind::Relative,
        (Err(_), Err(relative_error)) => PathKind::Neither(relative_error.kind()),
        (Ok(_), Ok(_)) => panic!("{input:?} was accepted as both absolute and relative"),
    }
}

fn absolute(path: &str) -> AbsUtf8PathBuf {
    AbsUtf8PathBuf::new(path).expect("path is absolute")
}

fn relative(path: &str) -> RelUtf8PathBuf {
    RelUtf8PathBuf::new(path).expect("path is a well-formed relative path")
}

#[test]
fn classify_portable() {
    assert_eq!(classify(""), PathKind::Neither(RelUtf8PathErrorKind::Empty));
    assert_eq!(
        classify("a\0b"),
        PathKind::Neither(RelUtf8PathErrorKind::ContainsNul)
    );
    assert_eq!(classify("."), PathKind::Relative);
    assert_eq!(classify(".."), PathKind::Relative);
    assert_eq!(classify("../config.toml"), PathKind::Relative);
    assert_eq!(classify("./a/../b/"), PathKind::Relative);
    assert_eq!(classify("a//b"), PathKind::Relative);
    assert_eq!(
        classify(ABSOLUTE_WITH_NUL),
        PathKind::Neither(RelUtf8PathErrorKind::ContainsNul)
    );
}

#[test]
fn absolute_path_error_kinds() {
    let cases = vec![
        ("", AbsUtf8PathErrorKind::Empty),
        ("\0", AbsUtf8PathErrorKind::ContainsNul),
        (ABSOLUTE_WITH_NUL, AbsUtf8PathErrorKind::ContainsNul),
        ("foo/bar", AbsUtf8PathErrorKind::NotAbsolute),
    ];
    for (input, expected) in cases {
        let error = AbsUtf8PathBuf::new(input).expect_err("path is rejected");
        assert_eq!(error.path(), input);
        assert_eq!(error.kind(), expected, "{input:?}");
    }
}

#[test]
fn parent_stays_absolute() {
    let cases = [
        ("/", None),
        ("/repo", Some("/")),
        ("/repo/config.toml", Some("/repo")),
        ("/repo/", Some("/")),
        ("/repo/..", Some("/repo")),
        ("//host/a", Some("//host")),
    ];
    for (input, expected) in cases {
        assert_eq!(
            absolute(input)
                .parent()
                .as_ref()
                .map(|parent| parent.as_path().to_owned()),
            expected.map(str::to_owned),
            "{input:?}"
        );
    }
}

#[test]
fn display_preserves_spelling() {
    let spelled = format!("{ABSOLUTE}//x/./");
    assert_eq!(absolute(spelled.as_str()).to_string(), spelled);
    assert_eq!(relative("a//b/./").to_string(), "a//b/./");
    assert_eq!(format!("{:>10}", relative("a//b/./").to_string()), "   a//b/./");
}

#[test]
fn resolve_against_current_dir_rejects_invalid_input() {
    for (input, expected) in [
        ("", ResolvePathErrorKind::Empty),
        ("a\0b", ResolvePathErrorKind::ContainsNul),
        ("\0", ResolvePathErrorKind::ContainsNul),
    ] {
        let error = AbsUtf8PathBuf::resolve_against_current_dir(input)
            .expect_err("input is rejected");
        assert_eq!(error.input(), input);
        assert_eq!(
            std::mem::discriminant(error.kind()),
            std::mem::discriminant(&expected),
            "{input:?}: got {:?}",
            error.kind()
        );
    }
}

#[test]
fn absolute_path_conversions_match_new() {
    for input in ["", ".", "foo/../bar", "a\0b", ABSOLUTE] {
        assert_eq!(
            AbsUtf8PathBuf::new(camino::Utf8PathBuf::from(input).as_str()),
            AbsUtf8PathBuf::new(input),
            "{input:?}"
        );
        assert_eq!(
            AbsUtf8PathBuf::try_from_path_buf(PathBuf::from(input)),
            AbsUtf8PathBuf::new(input).map_err(TryFromPathBufError::Invalid),
            "{input:?}"
        );
    }
}

fn assert_strip_prefix(base: &str, path: &str, expected: Option<&str>) {
    let base = absolute(base);
    let path = absolute(path);
    let stripped = path.strip_prefix(&base);
    assert_eq!(
        stripped.as_ref().map(|relative| relative.as_path()),
        expected,
        "stripping {base:?} from {path:?}"
    );
    if let Some(stripped) = stripped {
        assert_eq!(
            base.join(&stripped),
            path,
            "joining {stripped:?} onto {base:?}"
        );
    }
}

#[test]
fn strip_prefix_portable() {
    let (base, separator) = ("/repo", "/");
    let parent = "/";

    assert_strip_prefix(base, base, Some("."));
    assert_strip_prefix(base, &format!("{base}{separator}"), Some("."));
    assert_strip_prefix(base, &format!("{base}{separator}{separator}"), Some("."));
    assert_strip_prefix(&format!("{base}{separator}"), base, Some("."));
    assert_strip_prefix(
        &format!("{base}{separator}{separator}"),
        &format!("{base}{separator}"),
        Some("."),
    );
    assert_strip_prefix(&format!("{base}{separator}"), &format!("{base}itory"), None);
    assert_strip_prefix(
        base,
        &format!("{base}{separator}{separator}config.toml"),
        Some("config.toml"),
    );
    for suffix in [
        "config.toml",
        "a/../b/",
        "a//b",
        "file/",
        "file/.",
        "file//",
        "file/./",
    ] {
        assert_strip_prefix(base, &format!("{base}{separator}{suffix}"), Some(suffix));
    }
    assert_strip_prefix(base, &format!("{base}itory{separator}file"), None);
    assert_strip_prefix(base, &format!("{parent}other.toml"), None);
    assert_strip_prefix(base, parent, None);
}

#[test]
fn strip_prefix_unix() {
    for (base, path, expected) in [
        ("/repo/", "/repo/config.toml", Some("config.toml")),
        ("/repo/", "/repo", Some(".")),
        ("/repo/.", "/repo/config.toml", Some("config.toml")),
        ("/a/./", "/a/b", Some("b")),
        ("/", "/config.toml", Some("config.toml")),
        ("/", "///a", Some("a")),
        ("/", "//host/config.toml", None),
        ("//host", "/host/config.toml", None),
        ("//host", "//host/config.toml", Some("config.toml")),
        ("//", "///a", None),
        ("///", "//a", None),
        ("/a/.", "/a/.config", Some(".config")),
        ("/a/.", "/a/../file", Some("../file")),
        ("/a/.", "/a/..hidden", Some("..hidden")),
    ] {
        assert_strip_prefix(base, path, expected);
    }
}

#[test]
fn trim_trailing_separators_removes_only_trailing_separators() {
    assert_eq!(trim_trailing_separators("/repo//"), "/repo");
    assert_eq!(trim_trailing_separators("/repo"), "/repo");
    assert_eq!(trim_trailing_separators("a//b/"), "a//b");
    assert_eq!(trim_trailing_separators("///"), "");
    assert_eq!(trim_trailing_separators(""), "");
}

#[test]
fn has_double_root_needs_exactly_two_leading_separators() {
    assert!(has_double_root("//host"));
    assert!(has_double_root("//"));
    assert!(!has_double_root("/host"));
    assert!(!has_double_root("///host"));
    assert!(!has_double_root("a//"));
    assert!(!has_double_root(""));
}

#[test]
fn join_inserts_a_separator_only_when_needed() {
    assert_eq!(absolute("/repo").join(&relative("a//b")).as_path(), "/repo/a//b");
    assert_eq!(absolute("/repo/").join(&relative("../x")).as_path(), "/repo/../x");
    assert_eq!(absolute("/").join(&relative("x")).as_path(), "/x");
    assert_eq!(absolute("//").join(&relative("x")).as_path(), "//x");
}

#[test]
fn join_then_strip_gives_back_the_relative_spelling() {
    // Leading `.` components of the relative path are dropped, with the
    // separators after them; `.` stands for nothing left.
    let cases = [
        ("x", "x"),
        ("./a", "a"),
        (".//a/./", "a/./"),
        ("././", "."),
        ("./../x", "../x"),
        ("../x", "../x"),
        ("a//b/./", "a//b/./"),
        (".", "."),
        ("..", ".."),
        (".a", ".a"),
        ("a/", "a/"),
    ];
    for base in ["/", "//", "///", "/repo", "/repo/", "//host/a", "/a/."] {
        for (rel, expected) in cases {
            let base = absolute(base);
            let joined = base.join(&relative(rel));
            assert_eq!(
                joined.strip_prefix(&base).map(|r| r.into_path_buf()),
                Some(expected.to_owned()),
                "{base:?} {rel:?}"
            );
        }
    }
}

#[test]
fn strip_prefix_drops_leading_cur_dirs_of_the_remainder() {
    let base = absolute("/repo");
    let strip = |path: &str| absolute(path).strip_prefix(&base).map(|r| r.into_path_buf());
    assert_eq!(strip("/repo/./a"), Some("a".to_owned()));
    assert_eq!(strip("/repo//.//./a/./b"), Some("a/./b".to_owned()));
    assert_eq!(strip("/repo/./"), Some(".".to_owned()));
    assert_eq!(strip("/repo/."), Some(".".to_owned()));
    assert_eq!(strip("/repo/./../x"), Some("../x".to_owned()));
    assert_eq!(strip("/repo/..x"), Some("..x".to_owned()));
}

#[test]
fn try_from_utf8_text_checks_the_text() {
    assert_eq!(
        AbsUtf8PathBuf::try_from_utf8_text(Ok("/repo//x".to_owned()))
            .expect("absolute text is accepted")
            .as_path(),
        "/repo//x"
    );
    match AbsUtf8PathBuf::try_from_utf8_text(Ok("repo".to_owned())) {
        Err(TryFromPathBufError::Invalid(error)) => {
            assert_eq!(error.kind(), AbsUtf8PathErrorKind::NotAbsolute);
            assert_eq!(error.path(), "repo");
        }
        other => panic!("expected Invalid, got {other:?}"),
    }
    match AbsUtf8PathBuf::try_from_utf8_text(Ok(String::new())) {
        Err(TryFromPathBufError::Invalid(error)) => {
            assert_eq!(error.kind(), AbsUtf8PathErrorKind::Empty);
        }
        other => panic!("expected Invalid, got {other:?}"),
    }
}

#[test]
fn separators_after_base_are_dropped_unless_the_root_changes() {
    assert_eq!(
        absolute("/repo///x/y").strip_prefix(&absolute("/repo")).map(|r| r.into_path_buf()),
        Some("x/y".to_owned())
    );
    // `/` followed by one more separator spells the POSIX double root.
    assert_eq!(absolute("//x").strip_prefix(&absolute("/")), None);
    assert_eq!(
        absolute("///x").strip_prefix(&absolute("/")).map(|r| r.into_path_buf()),
        Some("x".to_owned())
    );
}

#[test]
fn paths_compare_by_components() {
    assert_eq!(absolute("/repo//a/"), absolute("/repo/a"));
    assert_eq!(absolute("/repo/./a"), absolute("/repo/a"));
    assert_ne!(absolute("/repo/../a"), absolute("/a"));
    assert_eq!(relative("a//b"), relative("a/b"));
    assert_ne!(relative("./a"), relative("a"));
}

#[test]
fn conversions_return_the_spelling() {
    let path = absolute("/repo//x/");
    assert_eq!(path.clone().into_path_buf(), "/repo//x/");
    assert_eq!(path.as_path(), "/repo//x/");
    let rel = relative("../x");
    assert_eq!(rel.as_path(), "../x");
    assert_eq!(rel.into_path_buf(), "../x");
}

#[test]
fn equal_paths_hash_equally() {
    let mut set = std::collections::HashSet::new();
    set.insert(absolute("/repo//a/"));
    set.insert(absolute("/repo/a"));
    set.insert(absolute("/repo/./a"));
    assert_eq!(set.len(), 1);
    let mut set = std::collections::HashSet::new();
    set.insert(relative("a//b"));
    set.insert(relative("a/b/"));
    set.insert(relative("../b"));
    assert_eq!(set.len(), 2);
}

#[test]
fn constructors_preserve_spelling_and_are_mutually_exclusive() {
    for input in [
        "", "\0", "a\0b", "/", "//", "/a//b/./", ".", "./", "..", "a/../b", "x", " /x", "é/ü",
    ] {
        let absolute = AbsUtf8PathBuf::new(input);
        let relative = RelUtf8PathBuf::new(input);
        assert!(
            absolute.is_err() || relative.is_err(),
            "{input:?} was accepted as both absolute and relative"
        );
        if !input.is_empty() && !input.contains('\0') {
            let is_absolute = input.starts_with('/');
            assert_eq!(absolute.is_ok(), is_absolute, "{input:?}");
            assert_eq!(relative.is_ok(), !is_absolute, "{input:?}");
        }
        match absolute {
            Ok(path) => assert_eq!(path.as_path(), input),
            Err(error) => assert_eq!(error.path(), input),
        }
        match relative {
            Ok(path) => assert_eq!(path.as_path(), input),
            Err(error) => assert_eq!(error.path(), input),
        }
    }
}

#[test]
fn strip_prefix_ignores_base_spelling() {
    let path = absolute("/repo/x/./y/");
    // Bases equal as paths give the same remainder, spelled as in the path.
    for base in ["/repo", "/repo/", "/repo//", "/repo/.", "/repo/./", "/./repo/", "/repo/././/"] {
        assert_eq!(
            path.strip_prefix(&absolute(base)).map(|r| r.into_path_buf()),
            Some("x/./y/".to_owned()),
            "{base:?}"
        );
    }
    assert_eq!(absolute("/a/c").strip_prefix(&absolute("/a//")).map(|r| r.into_path_buf()), Some("c".to_owned()));
    assert_eq!(absolute("/a/c").strip_prefix(&absolute("/a/.")).map(|r| r.into_path_buf()), Some("c".to_owned()));
    // The path's own respelling of the base is passed over too.
    assert_eq!(
        absolute("/repo//./x").strip_prefix(&absolute("/repo")).map(|r| r.into_path_buf()),
        Some("x".to_owned())
    );
    assert_eq!(
        absolute("//repo/x").strip_prefix(&absolute("//repo/")).map(|r| r.into_path_buf()),
        Some("x".to_owned())
    );
    assert_eq!(absolute("/repo/x").strip_prefix(&absolute("/repo/x/..")), None);
}

#[test]
fn parent_removes_parent_components_textually() {
    let project = absolute("/work/project");
    let path = project.join(&relative(".."));
    assert_eq!(path.as_path(), "/work/project/..");
    assert_eq!(path.parent().expect("has a parent"), project);
    assert_eq!(absolute("/").parent(), None);
    assert_eq!(absolute("//").parent(), None);
}

#[test]
fn native_results_become_absolute_paths_or_errors() {
    let io_error = std::io::Error::from(std::io::ErrorKind::NotFound);
    assert!(matches!(
        AbsUtf8PathBuf::from_native(Err(io_error)),
        Err(NativePathErrorKind::Io(_))
    ));
    assert_eq!(
        AbsUtf8PathBuf::from_native(Ok(PathBuf::from("/repo//x")))
            .expect("absolute UTF-8 path is accepted")
            .as_path(),
        "/repo//x"
    );
    match AbsUtf8PathBuf::from_native_utf8(Ok("(unreachable)/repo".to_owned())) {
        Err(NativePathErrorKind::Invalid(error)) => {
            assert_eq!(error.kind(), AbsUtf8PathErrorKind::NotAbsolute);
            assert_eq!(error.path(), "(unreachable)/repo");
        }
        other => panic!("expected Invalid, got {other:?}"),
    }
}

#[test]
fn resolve_against_current_dir_resolves_relative_input() {
    let path = AbsUtf8PathBuf::resolve_against_current_dir("config.toml")
        .expect("current directory is readable");
    assert!(path.as_path().starts_with('/'));
    assert!(path.as_path().ends_with("/config.toml"));
    let path = AbsUtf8PathBuf::resolve_against_current_dir("/etc/./x")
        .expect("absolute input resolves");
    assert_eq!(path.as_path(), "/etc/x");
    let path = AbsUtf8PathBuf::resolve_against_current_dir("/a//b/../c/")
        .expect("absolute input resolves");
    assert_eq!(path.as_path(), "/a/b/../c/");
}

#[test]
fn text_helpers_read_components() {
    assert!(is_separator('/'));
    assert!(!is_separator('.'));
    assert!(contains_dot_component("a/./b"));
    assert!(contains_dot_component(".."));
    assert!(contains_dot_component("a/b/.."));
    assert!(contains_dot_component("//./"));
    assert!(!contains_dot_component("a/..b/.c"));
    assert!(!contains_dot_component("src/lib.rs"));
    assert!(!contains_dot_component(""));
    assert!(contains_char("a/b", '/'));
    assert!(!contains_char("a.b", '/'));
    assert_eq!(skip_names("././/a/./", 0), "a/./");
    assert_eq!(skip_names("././", 0), "");
    assert_eq!(skip_names(".a/b", 0), ".a/b");
    assert_eq!(skip_names("../a", 0), "../a");
    assert_eq!(skip_names("/repo//./x/./y/", 1), "x/./y/");
    assert_eq!(skip_names("/a/b", 2), "");
    assert_eq!(skip_names("/a/b", 5), "");
    assert_eq!(name_count("/repo//./x/../y/"), 4);
    assert_eq!(name_count("./"), 0);
    assert_eq!(name_count(""), 0);
}

#[test]
fn absolute_outcomes_become_absolute_paths_or_errors() {
    let io_error = std::io::Error::from(std::io::ErrorKind::NotFound);
    assert!(matches!(
        AbsUtf8PathBuf::from_absolute_outcome(Err(io_error)),
        Err(NativePathErrorKind::Io(_))
    ));
    assert_eq!(
        AbsUtf8PathBuf::from_absolute_outcome(Ok(Ok("/repo/config.toml".to_owned())))
            .expect("absolute UTF-8 text is accepted")
            .as_path(),
        "/repo/config.toml"
    );
    match AbsUtf8PathBuf::from_absolute_outcome(Ok(Ok("(unreachable)/repo".to_owned()))) {
        Err(NativePathErrorKind::Invalid(error)) => {
            assert_eq!(error.kind(), AbsUtf8PathErrorKind::NotAbsolute);
            assert_eq!(error.path(), "(unreachable)/repo");
        }
        other => panic!("expected Invalid, got {other:?}"),
    }
}

#[test]
fn debug_shows_the_spelling() {
    assert_eq!(format!("{:?}", absolute("/repo//x")), "AbsUtf8PathBuf(\"/repo//x\")");
    assert_eq!(format!("{:?}", relative("a/./b")), "RelUtf8PathBuf(\"a/./b\")");
}
