use camino_anchored::{
    choose_logical_current_dir, pwd_text, AbsUtf8PathBuf, PathAnchor, RelUtf8PathBuf, RelUtf8PathErrorKind,
    ResolvePathErrorKind,
};

const BASE: &str = "/repo";

fn absolute(path: &str) -> AbsUtf8PathBuf {
    AbsUtf8PathBuf::new(path).expect("path is absolute")
}

fn relative(path: &str) -> RelUtf8PathBuf {
    RelUtf8PathBuf::new(path).expect("path is a well-formed relative path")
}

fn base(directory: &str) -> PathAnchor {
    PathAnchor::new(absolute(directory))
}

#[test]
fn resolve_input_rejects_invalid_input() {
    let base = base(BASE);

    // NUL is checked before the other rejection kinds, so absolute inputs
    // containing NUL must also be rejected.
    let cases = vec![
        (String::new(), ResolvePathErrorKind::Empty),
        ("a\0b".to_owned(), ResolvePathErrorKind::ContainsNul),
        (format!("{BASE}/a\0b"), ResolvePathErrorKind::ContainsNul),
    ];
    for (input, expected) in cases {
        let error = base.resolve_input(&input).expect_err("input is rejected");
        assert_eq!(error.input(), input);
        assert_eq!(
            std::mem::discriminant(error.kind()),
            std::mem::discriminant(&expected),
            "{input:?}: got {:?}",
            error.kind()
        );
    }
}

#[test]
fn resolve_relative_preserves_input_spelling() {
    for (directory, input, expected) in [
        ("/repo", "../config.toml", "/repo/../config.toml"),
        ("/repo/", "./a//b/", "/repo/./a//b/"),
        ("/", ".", "/."),
        ("//host", "x", "//host/x"),
    ] {
        let resolved = base(directory).resolve_relative(relative(input));
        assert_eq!(resolved.display().to_string(), input);
        assert_eq!(resolved.display().as_str(), input);
        assert_eq!(resolved.relative(), Some(&relative(input)));
        assert_eq!(resolved.relative().map(|r| r.as_path()), Some(input));
        assert_eq!(resolved.absolute().as_path(), expected);
        assert_eq!(resolved.clone().into_absolute().as_path(), expected);
    }
}

#[test]
fn resolve_absolute_displays_relative_when_possible() {
    let anchor = base("/project");
    let inside = anchor.resolve_absolute(absolute("/project/config.toml"));
    assert_eq!(inside.absolute().as_path(), "/project/config.toml");
    assert_eq!(inside.display().to_string(), "config.toml");

    let outside = anchor.resolve_absolute(absolute("/other.toml"));
    assert_eq!(outside.relative(), None);
    assert_eq!(outside.display().to_string(), "/other.toml");

    let itself = anchor.resolve_absolute(absolute("/project/"));
    assert_eq!(itself.display().as_str(), ".");
}

#[test]
fn resolve_input_matches_resolve_relative_or_resolve_absolute() {
    for directory in ["/", "//", "/repo", "/repo/", "//host/a"] {
        let base = base(directory);
        for input in [
            "x", "./x", "../x", "a//b/", ".", "/repo/x", "/repo", "/other", "//host/a/b", "", "a\0",
        ] {
            let expected = match RelUtf8PathBuf::new(input) {
                Ok(rel) => base.resolve_relative(rel),
                Err(error) => match error.kind() {
                    RelUtf8PathErrorKind::Absolute => base.resolve_absolute(absolute(input)),
                    RelUtf8PathErrorKind::Empty | RelUtf8PathErrorKind::ContainsNul => {
                        base.resolve_input(input)
                            .expect_err("empty inputs and inputs containing NUL are rejected");
                        continue;
                    }
                    other => panic!("unexpected relative path error kind: {other:?}"),
                },
            };
            let resolved = base.resolve_input(input).expect("well-formed input resolves");
            assert_eq!(
                resolved.absolute().as_path(),
                expected.absolute().as_path()
            );
            assert_eq!(resolved.display().to_string(), expected.display().to_string());
        }
    }
}

#[test]
fn relative_display_names_the_same_path() {
    for (directory, path) in [
        ("/repo", "/repo//x/./"),
        ("/repo/", "/repo"),
        ("/", "///a"),
        ("//host", "//host/c"),
        ("/repo", "/repository"),
        ("/a/.", "/a/..hidden"),
    ] {
        let anchor = base(directory);
        let path = absolute(path);
        let resolved = anchor.resolve_absolute(path.clone());
        let stripped = path.strip_prefix(anchor.directory());
        assert_eq!(resolved.relative(), stripped.as_ref());
        match stripped {
            None => assert_eq!(resolved.display().to_string(), path.as_path()),
            Some(rel) => {
                assert_eq!(resolved.display().as_str(), rel.as_path());
                let rejoined = anchor.directory().join(&rel);
                assert_eq!(rejoined, path);
                if rel.as_path() != "." {
                    assert!(path.as_path().ends_with(rel.as_path()));
                }
                assert_eq!(
                    camino_anchored::has_double_root(rejoined.as_path()),
                    camino_anchored::has_double_root(path.as_path())
                );
            }
        }
    }
}

#[test]
fn readme_example_without_filesystem() {
    let workspace_base = base("/project");
    let invocation_base = base("/project/crates/widget");

    let explicit_config = invocation_base
        .resolve_input("../custom.toml")
        .expect("relative input resolves");
    assert_eq!(
        explicit_config.absolute().as_path(),
        "/project/crates/widget/../custom.toml"
    );
    assert_eq!(explicit_config.display().to_string(), "../custom.toml");

    let default_config_relative = relative(".config/myproject.toml");
    let default_config_absolute = workspace_base.directory().join(&default_config_relative);
    let default_config = invocation_base.resolve_absolute(default_config_absolute);
    assert_eq!(
        default_config.absolute().as_path(),
        "/project/.config/myproject.toml"
    );
    assert_eq!(
        default_config.display().to_string(),
        default_config.absolute().as_path()
    );

    let config_dir = explicit_config
        .absolute()
        .parent()
        .expect("config file has a parent directory");
    let config_base = PathAnchor::new(config_dir);
    let data_file = config_base.resolve_relative(relative("data/input.txt"));
    assert_eq!(
        data_file.absolute().as_path(),
        "/project/crates/widget/../data/input.txt"
    );
}

#[test]
fn anchors_compare_by_directory_components() {
    assert_eq!(base("/repo//"), base("/repo"));
    assert_ne!(base("/repo"), base("/other"));
    assert_eq!(base("/repo").directory().as_path(), "/repo");
}

#[test]
fn logical_current_dir_prefers_a_matching_pwd() {
    let physical = absolute("/data/project");
    assert_eq!(
        choose_logical_current_dir(None, physical.clone(), |_, _| true).as_path(),
        "/data/project"
    );
    assert_eq!(
        choose_logical_current_dir(Some("relative".to_owned()), physical.clone(), |_, _| true)
            .as_path(),
        "/data/project"
    );
    assert_eq!(
        choose_logical_current_dir(Some("/home/link".to_owned()), physical.clone(), |_, _| false)
            .as_path(),
        "/data/project"
    );
    assert_eq!(
        choose_logical_current_dir(Some("/home/link".to_owned()), physical.clone(), |a, b| {
            a.as_path() == "/home/link" && b.as_path() == "/data/project"
        })
        .as_path(),
        "/home/link"
    );
}

#[test]
fn pwd_text_keeps_utf8_values() {
    assert_eq!(pwd_text(None), None);
    assert_eq!(
        pwd_text(Some(std::path::PathBuf::from("/home/me"))),
        Some("/home/me".to_owned())
    );
}
