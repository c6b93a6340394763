//! Errors returned when a path is not well formed or cannot be resolved.

use vstd::prelude::*;
use vstd::string::*;
use crate::native::{
    from_path_buf_error_text, non_utf8_path_display, non_utf8_path_text, path_debug_text,
    utf8_debug_text, utf8_eq,
};
use crate::native::paths_equal;
use crate::text::has_nul;

verus! {

// ---------------------------------------------------------------------------
// Kinds
// ---------------------------------------------------------------------------

/// The reason a path is not a well-formed absolute path.
///
/// Part of [`AbsUtf8PathError`].
#[derive(Clone, Copy, Debug, PartialEq, Eq, Hash, Structural)]
#[non_exhaustive]
pub enum AbsUtf8PathErrorKind {
    /// The path is empty.
    Empty,
    /// The path contains a NUL byte. No supported platform allows NUL bytes
    /// in paths.
    ContainsNul,
    /// The path is not absolute, e.g. `foo/bar`.
    NotAbsolute,
    /// The path is root-relative, e.g. `\foo` on Windows.
    RootRelative,
    /// The path is drive-relative, e.g. `C:foo` or `C:` on Windows.
    DriveRelative,
}

/// The reason a path is not a well-formed relative path.
///
/// Part of [`RelUtf8PathError`].
#[derive(Clone, Copy, Debug, PartialEq, Eq, Hash, Structural)]
#[non_exhaustive]
pub enum RelUtf8PathErrorKind {
    /// The path is empty.
    Empty,
    /// The path contains a NUL byte. No supported platform allows NUL bytes
    /// in paths.
    ContainsNul,
    /// The path is absolute, e.g. `/foo`.
    Absolute,
    /// The path is root-relative, e.g. `\foo` on Windows.
    RootRelative,
    /// The path is drive-relative, e.g. `C:foo` or `C:` on Windows.
    DriveRelative,
}

/// The two ways a path text can be malformed whatever it is meant to be.
#[derive(Clone, Copy, Debug, PartialEq, Eq, Structural)]
pub enum MalformedPathKind {
    Empty,
    ContainsNul,
}

/// How a path text is malformed, if it is: empty first, then NUL.
pub open spec fn malformed_kind_of(s: Seq<char>) -> Option<MalformedPathKind> {
    if s.len() == 0 {
        Some(MalformedPathKind::Empty)
    } else if has_nul(s) {
        Some(MalformedPathKind::ContainsNul)
    } else {
        None
    }
}

impl From<MalformedPathKind> for AbsUtf8PathErrorKind {
    fn from(kind: MalformedPathKind) -> (r: Self) {
        match kind {
            MalformedPathKind::Empty => Self::Empty,
            MalformedPathKind::ContainsNul => Self::ContainsNul,
        }
    }
}

impl vstd::std_specs::convert::FromSpecImpl<MalformedPathKind> for AbsUtf8PathErrorKind {
    open spec fn obeys_from_spec() -> bool {
        true
    }

    open spec fn from_spec(kind: MalformedPathKind) -> Self {
        match kind {
            MalformedPathKind::Empty => Self::Empty,
            MalformedPathKind::ContainsNul => Self::ContainsNul,
        }
    }
}

impl From<MalformedPathKind> for RelUtf8PathErrorKind {
    fn from(kind: MalformedPathKind) -> (r: Self) {
        match kind {
            MalformedPathKind::Empty => Self::Empty,
            MalformedPathKind::ContainsNul => Self::ContainsNul,
        }
    }
}

impl vstd::std_specs::convert::FromSpecImpl<MalformedPathKind> for RelUtf8PathErrorKind {
    open spec fn obeys_from_spec() -> bool {
        true
    }

    open spec fn from_spec(kind: MalformedPathKind) -> Self {
        match kind {
            MalformedPathKind::Empty => Self::Empty,
            MalformedPathKind::ContainsNul => Self::ContainsNul,
        }
    }
}

impl From<MalformedPathKind> for ResolvePathErrorKind {
    fn from(kind: MalformedPathKind) -> (r: Self) {
        match kind {
            MalformedPathKind::Empty => Self::Empty,
            MalformedPathKind::ContainsNul => Self::ContainsNul,
        }
    }
}

impl vstd::std_specs::convert::FromSpecImpl<MalformedPathKind> for ResolvePathErrorKind {
    open spec fn obeys_from_spec() -> bool {
        true
    }

    open spec fn from_spec(kind: MalformedPathKind) -> Self {
        match kind {
            MalformedPathKind::Empty => Self::Empty,
            MalformedPathKind::ContainsNul => Self::ContainsNul,
        }
    }
}

// ---------------------------------------------------------------------------
// Messages
// ---------------------------------------------------------------------------

/// The message of an [`AbsUtf8PathError`].
pub open spec fn abs_error_message(path: Seq<char>, kind: AbsUtf8PathErrorKind) -> Seq<char> {
    match kind {
        AbsUtf8PathErrorKind::Empty => "expected an absolute path, but the path is empty"@,
        AbsUtf8PathErrorKind::ContainsNul => "expected an absolute path, but "@ + path_debug_text(
            path,
        ) + " contains a NUL byte"@,
        AbsUtf8PathErrorKind::NotAbsolute => "expected an absolute path, got `"@ + path + "`"@,
        AbsUtf8PathErrorKind::RootRelative => "expected an absolute path, but `"@ + path
            + "` is relative to the root of the current drive"@,
        AbsUtf8PathErrorKind::DriveRelative => "expected an absolute path, but `"@ + path
            + "` is relative to the current directory of its drive"@,
    }
}

/// The message of a [`RelUtf8PathError`].
pub open spec fn rel_error_message(path: Seq<char>, kind: RelUtf8PathErrorKind) -> Seq<char> {
    match kind {
        RelUtf8PathErrorKind::Empty => "expected a relative path, but the path is empty"@,
        RelUtf8PathErrorKind::ContainsNul => "expected a relative path, but "@ + path_debug_text(
            path,
        ) + " contains a NUL byte"@,
        RelUtf8PathErrorKind::Absolute => "expected a relative path, but `"@ + path
            + "` is absolute"@,
        RelUtf8PathErrorKind::RootRelative => "expected a relative path, but `"@ + path
            + "` is relative to the root of the current drive (remove the leading separator to make it relative)"@,
        RelUtf8PathErrorKind::DriveRelative => "expected a relative path, but `"@ + path
            + "` is relative to the current directory of its drive (remove the drive prefix to make it relative)"@,
    }
}

/// Whether an absolute-path error kind says the path itself was malformed
/// (as opposed to not being absolute).
pub open spec fn is_malformed_abs_kind(kind: AbsUtf8PathErrorKind) -> bool {
    kind == AbsUtf8PathErrorKind::Empty || kind == AbsUtf8PathErrorKind::ContainsNul
}

/// The message of a [`ResolvePathError`], where `input` is the path that
/// could not be resolved. For a non-UTF-8 result, the message holds that
/// result's lossy text.
pub open spec fn resolve_error_message_ok(
    input: Seq<char>,
    kind: ResolvePathErrorKind,
    message: Seq<char>,
) -> bool {
    match kind {
        ResolvePathErrorKind::Empty => message == "cannot resolve an empty path"@,
        ResolvePathErrorKind::ContainsNul => message == "cannot resolve "@ + path_debug_text(input)
            + ": path contains a NUL byte"@,
        ResolvePathErrorKind::Native(NativePathErrorKind::Io(_)) => message
            == "failed to resolve `"@ + input + "` to an absolute path"@,
        ResolvePathErrorKind::Native(NativePathErrorKind::NonUtf8(error)) => message
            == "resolved `"@ + input + "` to `"@ + non_utf8_path_text(error)
            + "`, which is not valid UTF-8"@,
        ResolvePathErrorKind::Native(NativePathErrorKind::Invalid(error)) => if is_malformed_abs_kind(
            error@.1,
        ) {
            message == "resolved `"@ + input + "` to an invalid path"@
        } else {
            message == "resolved `"@ + input
                + "` to an invalid path (the current directory may be unreachable)"@
        },
    }
}

/// The message of a [`CurrentDirError`]. For a non-UTF-8 directory, the
/// message holds its lossy text.
pub open spec fn current_dir_error_message_ok(kind: NativePathErrorKind, message: Seq<char>) -> bool {
    match kind {
        NativePathErrorKind::Io(_) => message == "failed to read the current directory"@,
        NativePathErrorKind::NonUtf8(error) => message == "current directory `"@
            + non_utf8_path_text(error) + "` is not valid UTF-8"@,
        NativePathErrorKind::Invalid(error) => if is_malformed_abs_kind(error@.1) {
            message == "current directory is invalid"@
        } else {
            message == "current directory is invalid (it may be unreachable)"@
        },
    }
}

// ---------------------------------------------------------------------------
// AbsUtf8PathError
// ---------------------------------------------------------------------------

/// An error indicating that a path was not a well-formed absolute path.
///
/// Returned by [`AbsUtf8PathBuf::new`](crate::AbsUtf8PathBuf::new).
#[derive(Clone, Debug)]
pub struct AbsUtf8PathError {
    path: String,
    kind: AbsUtf8PathErrorKind,
}

impl View for AbsUtf8PathError {
    type V = (Seq<char>, AbsUtf8PathErrorKind);

    closed spec fn view(&self) -> (Seq<char>, AbsUtf8PathErrorKind) {
        (self.path@, self.kind)
    }
}

impl AbsUtf8PathError {
    /// Creates an error for `path`, rejected for the reason `kind`.
    pub fn new(path: String, kind: AbsUtf8PathErrorKind) -> (r: Self)
        ensures
            r@ == (path@, kind),
    {
        Self { path, kind }
    }

    /// Returns the path that was rejected.
    pub fn path(&self) -> (r: &str)
        ensures
            r@ == self@.0,
    {
        self.path.as_str()
    }

    /// Consumes the error, returning the path that was rejected.
    pub fn into_path(self) -> (r: String)
        ensures
            r@ == self@.0,
    {
        self.path
    }

    /// Returns the reason the path was rejected.
    pub fn kind(&self) -> (r: AbsUtf8PathErrorKind)
        ensures
            r == self@.1,
    {
        self.kind
    }

    /// Returns the message describing the error.
    pub fn to_string(&self) -> (r: String)
        ensures
            r@ == abs_error_message(self@.0, self@.1),
    {
        let path = self.path.as_str();
        match self.kind {
            AbsUtf8PathErrorKind::Empty => "expected an absolute path, but the path is empty".to_owned(),
            AbsUtf8PathErrorKind::ContainsNul => {
                let mut message = "expected an absolute path, but ".to_owned();
                message.append(utf8_debug_text(path).as_str());
                message.append(" contains a NUL byte");
                message
            },
            AbsUtf8PathErrorKind::NotAbsolute => {
                let mut message = "expected an absolute path, got `".to_owned();
                message.append(path);
                message.append("`");
                message
            },
            AbsUtf8PathErrorKind::RootRelative => {
                let mut message = "expected an absolute path, but `".to_owned();
                message.append(path);
                message.append("` is relative to the root of the current drive");
                message
            },
            AbsUtf8PathErrorKind::DriveRelative => {
                let mut message = "expected an absolute path, but `".to_owned();
                message.append(path);
                message.append("` is relative to the current directory of its drive");
                message
            },
        }
    }
}

impl PartialEq for AbsUtf8PathError {
    fn eq(&self, other: &Self) -> (r: bool) {
        utf8_eq(self.path.as_str(), other.path.as_str()) && self.kind == other.kind
    }
}

impl vstd::std_specs::cmp::PartialEqSpecImpl for AbsUtf8PathError {
    open spec fn obeys_eq_spec() -> bool {
        true
    }

    open spec fn eq_spec(&self, other: &Self) -> bool {
        paths_equal(self@.0, other@.0) && self@.1 == other@.1
    }
}

impl Eq for AbsUtf8PathError {}

// ---------------------------------------------------------------------------
// RelUtf8PathError
// ---------------------------------------------------------------------------

/// An error indicating that a path was not a well-formed relative path.
///
/// Returned by [`RelUtf8PathBuf::new`](crate::RelUtf8PathBuf::new).
#[derive(Clone, Debug)]
pub struct RelUtf8PathError {
    path: String,
    kind: RelUtf8PathErrorKind,
}

impl View for RelUtf8PathError {
    type V = (Seq<char>, RelUtf8PathErrorKind);

    closed spec fn view(&self) -> (Seq<char>, RelUtf8PathErrorKind) {
        (self.path@, self.kind)
    }
}

impl RelUtf8PathError {
    /// Creates an error for `path`, rejected for the reason `kind`.
    pub fn new(path: String, kind: RelUtf8PathErrorKind) -> (r: Self)
        ensures
            r@ == (path@, kind),
    {
        Self { path, kind }
    }

    /// Returns the path that was rejected.
    pub fn path(&self) -> (r: &str)
        ensures
            r@ == self@.0,
    {
        self.path.as_str()
    }

    /// Consumes the error, returning the path that was rejected.
    pub fn into_path(self) -> (r: String)
        ensures
            r@ == self@.0,
    {
        self.path
    }

    /// Returns the reason the path was rejected.
    pub fn kind(&self) -> (r: RelUtf8PathErrorKind)
        ensures
            r == self@.1,
    {
        self.kind
    }

    /// Returns the message describing the error.
    pub fn to_string(&self) -> (r: String)
        ensures
            r@ == rel_error_message(self@.0, self@.1),
    {
        let path = self.path.as_str();
        match self.kind {
            RelUtf8PathErrorKind::Empty => "expected a relative path, but the path is empty".to_owned(),
            RelUtf8PathErrorKind::ContainsNul => {
                let mut message = "expected a relative path, but ".to_owned();
                message.append(utf8_debug_text(path).as_str());
                message.append(" contains a NUL byte");
                message
            },
            RelUtf8PathErrorKind::Absolute => {
                let mut message = "expected a relative path, but `".to_owned();
                message.append(path);
                message.append("` is absolute");
                message
            },
            RelUtf8PathErrorKind::RootRelative => {
                let mut message = "expected a relative path, but `".to_owned();
                message.append(path);
                message.append(
                    "` is relative to the root of the current drive (remove the leading separator to make it relative)",
                );
                message
            },
            RelUtf8PathErrorKind::DriveRelative => {
                let mut message = "expected a relative path, but `".to_owned();
                message.append(path);
                message.append(
                    "` is relative to the current directory of its drive (remove the drive prefix to make it relative)",
                );
                message
            },
        }
    }
}

impl PartialEq for RelUtf8PathError {
    fn eq(&self, other: &Self) -> (r: bool) {
        utf8_eq(self.path.as_str(), other.path.as_str()) && self.kind == other.kind
    }
}

impl vstd::std_specs::cmp::PartialEqSpecImpl for RelUtf8PathError {
    open spec fn obeys_eq_spec() -> bool {
        true
    }

    open spec fn eq_spec(&self, other: &Self) -> bool {
        paths_equal(self@.0, other@.0) && self@.1 == other@.1
    }
}

impl Eq for RelUtf8PathError {}

// ---------------------------------------------------------------------------
// Native errors
// ---------------------------------------------------------------------------

/// A platform-level error that occurred while resolving a path.
///
/// Part of [`CurrentDirError`] and [`ResolvePathErrorKind::Native`].
#[derive(Debug)]
#[non_exhaustive]
pub enum NativePathErrorKind {
    /// A platform-level resolution failure occurred (e.g. the current
    /// directory is not readable).
    Io(std::io::Error),
    /// The resolved path is not valid UTF-8.
    NonUtf8(camino::FromPathBufError),
    /// The resolved path is not a well-formed absolute path. This can happen
    /// with old glibc versions when the current directory is outside the
    /// process's root directory: `getcwd` returns a path starting with
    /// `(unreachable)`.
    Invalid(AbsUtf8PathError),
}

/// The reason an input path could not be resolved.
///
/// Part of [`ResolvePathError`].
#[derive(Debug)]
#[non_exhaustive]
pub enum ResolvePathErrorKind {
    /// The input path is empty.
    Empty,
    /// The input path contains a NUL byte.
    ContainsNul,
    /// Native resolution failed, or its result could not be used.
    Native(NativePathErrorKind),
}

/// An error that occurs if an input path could not be resolved.
///
/// Returned by
/// [`AbsUtf8PathBuf::resolve_against_current_dir`](crate::AbsUtf8PathBuf::resolve_against_current_dir)
/// and [`PathAnchor::resolve_input`](crate::PathAnchor::resolve_input).
#[derive(Debug)]
pub struct ResolvePathError {
    input: String,
    kind: ResolvePathErrorKind,
}

impl View for ResolvePathError {
    type V = Seq<char>;

    closed spec fn view(&self) -> Seq<char> {
        self.input@
    }
}

impl ResolvePathError {
    /// The reason resolution failed.
    pub closed spec fn spec_kind(&self) -> ResolvePathErrorKind {
        self.kind
    }

    /// Creates an error for `input`, which could not be resolved for the
    /// reason `kind`.
    pub fn new(input: String, kind: ResolvePathErrorKind) -> (r: Self)
        ensures
            r@ == input@,
            r.spec_kind() == kind,
    {
        Self { input, kind }
    }

    /// The input path that could not be resolved.
    pub fn input(&self) -> (r: &str)
        ensures
            r@ == self@,
    {
        self.input.as_str()
    }

    /// Consumes the error, returning the input path that could not be
    /// resolved.
    pub fn into_input(self) -> (r: String)
        ensures
            r@ == self@,
    {
        self.input
    }

    /// Returns the reason resolution failed.
    pub fn kind(&self) -> (r: &ResolvePathErrorKind)
        ensures
            *r == self.spec_kind(),
    {
        &self.kind
    }

    /// Returns the message describing the error.
    pub fn to_string(&self) -> (r: String)
        ensures
            resolve_error_message_ok(self@, self.spec_kind(), r@),
    {
        let input = self.input.as_str();
        match &self.kind {
            ResolvePathErrorKind::Empty => "cannot resolve an empty path".to_owned(),
            ResolvePathErrorKind::ContainsNul => {
                let mut message = "cannot resolve ".to_owned();
                message.append(utf8_debug_text(input).as_str());
                message.append(": path contains a NUL byte");
                message
            },
            ResolvePathErrorKind::Native(NativePathErrorKind::Io(_)) => {
                let mut message = "failed to resolve `".to_owned();
                message.append(input);
                message.append("` to an absolute path");
                message
            },
            ResolvePathErrorKind::Native(NativePathErrorKind::NonUtf8(error)) => {
                let mut message = "resolved `".to_owned();
                message.append(input);
                message.append("` to `");
                message.append(non_utf8_path_display(error).as_str());
                message.append("`, which is not valid UTF-8");
                message
            },
            ResolvePathErrorKind::Native(NativePathErrorKind::Invalid(error)) => {
                let mut message = "resolved `".to_owned();
                message.append(input);
                match error.kind() {
                    AbsUtf8PathErrorKind::Empty | AbsUtf8PathErrorKind::ContainsNul => {
                        message.append("` to an invalid path");
                    },
                    AbsUtf8PathErrorKind::NotAbsolute
                    | AbsUtf8PathErrorKind::RootRelative
                    | AbsUtf8PathErrorKind::DriveRelative => {
                        message.append(
                            "` to an invalid path (the current directory may be unreachable)",
                        );
                    },
                }
                message
            },
        }
    }
}

/// An error that occurred while obtaining the current directory.
#[derive(Debug)]
pub struct CurrentDirError {
    kind: NativePathErrorKind,
}

impl CurrentDirError {
    /// The kind of error that occurred.
    pub closed spec fn spec_kind(&self) -> NativePathErrorKind {
        self.kind
    }

    /// Creates an error of the given kind.
    pub fn new(kind: NativePathErrorKind) -> (r: Self)
        ensures
            r.spec_kind() == kind,
    {
        Self { kind }
    }

    /// Returns information about the kind of error that occurred.
    pub fn kind(&self) -> (r: &NativePathErrorKind)
        ensures
            *r == self.spec_kind(),
    {
        &self.kind
    }

    /// Returns the message describing the error.
    pub fn to_string(&self) -> (r: String)
        ensures
            current_dir_error_message_ok(self.spec_kind(), r@),
    {
        match &self.kind {
            NativePathErrorKind::Io(_) => "failed to read the current directory".to_owned(),
            NativePathErrorKind::NonUtf8(error) => {
                let mut message = "current directory `".to_owned();
                message.append(non_utf8_path_display(error).as_str());
                message.append("` is not valid UTF-8");
                message
            },
            NativePathErrorKind::Invalid(error) => match error.kind() {
                AbsUtf8PathErrorKind::Empty | AbsUtf8PathErrorKind::ContainsNul => {
                    "current directory is invalid".to_owned()
                },
                AbsUtf8PathErrorKind::NotAbsolute
                | AbsUtf8PathErrorKind::RootRelative
                | AbsUtf8PathErrorKind::DriveRelative => {
                    "current directory is invalid (it may be unreachable)".to_owned()
                },
            },
        }
    }
}

/// An error converting a `PathBuf` to an
/// [`AbsUtf8PathBuf`](crate::AbsUtf8PathBuf).
#[derive(Clone, Debug, PartialEq, Eq)]
#[non_exhaustive]
pub enum TryFromPathBufError {
    /// The path was not valid UTF-8.
    NonUtf8(camino::FromPathBufError),
    /// The path was UTF-8, but was rejected by
    /// [`AbsUtf8PathBuf::new`](crate::AbsUtf8PathBuf::new).
    Invalid(AbsUtf8PathError),
}

impl TryFromPathBufError {
    /// Returns the message describing the error: that of the underlying
    /// error (for a non-UTF-8 path, `PathBuf contains invalid UTF-8: `
    /// followed by the path's lossy display).
    pub fn to_string(&self) -> (r: String)
        ensures
            self matches TryFromPathBufError::Invalid(error) ==> r@ == abs_error_message(
                error@.0,
                error@.1,
            ),
            self matches TryFromPathBufError::NonUtf8(error) ==> r@
                == "PathBuf contains invalid UTF-8: "@ + non_utf8_path_text(*error),
    {
        match self {
            TryFromPathBufError::NonUtf8(error) => from_path_buf_error_text(error),
            TryFromPathBufError::Invalid(error) => error.to_string(),
        }
    }
}

} // verus!
