//! Absolute and well-formed relative UTF-8 paths.

use vstd::prelude::*;
use vstd::string::*;
use crate::errors::{
    malformed_kind_of, AbsUtf8PathError, AbsUtf8PathErrorKind, MalformedPathKind,
    NativePathErrorKind, RelUtf8PathError, RelUtf8PathErrorKind, ResolvePathError,
    ResolvePathErrorKind, TryFromPathBufError,
};
use crate::native::{
    absolute_path_text, path_buf_text, path_has_root, path_is_absolute, path_join, path_parent,
    path_prefix_kind, path_prefix_text, path_starts_with, paths_equal, std_absolute,
    unix_rules, utf8_eq, utf8_from_path_buf, utf8_has_root, utf8_is_absolute, utf8_join,
    utf8_parent, utf8_prefix_kind, utf8_prefix_text, utf8_starts_with, PrefixKind,
};
use crate::text::{
    after_names, contains_char, contains_dot_component, contains_nul, has_dot_component,
    has_double_root, has_nul, is_double_rooted, is_rooted, lemma_no_nul_parts, name_count,
    names, skip_names,
};

verus! {

/// Why `AbsUtf8PathBuf::new` rejects a text, if it does: empty, then NUL,
/// then (unless the platform takes it as absolute) rooted without a
/// prefix, prefixed without a root, or plainly relative.
pub open spec fn abs_rejection(s: Seq<char>) -> Option<AbsUtf8PathErrorKind> {
    if s.len() == 0 {
        Some(AbsUtf8PathErrorKind::Empty)
    } else if has_nul(s) {
        Some(AbsUtf8PathErrorKind::ContainsNul)
    } else if path_is_absolute(s) {
        None
    } else if path_has_root(s) {
        Some(AbsUtf8PathErrorKind::RootRelative)
    } else if path_prefix_kind(s) is Some {
        Some(AbsUtf8PathErrorKind::DriveRelative)
    } else {
        Some(AbsUtf8PathErrorKind::NotAbsolute)
    }
}

/// Why `RelUtf8PathBuf::new` rejects a text, if it does: empty, then NUL,
/// then absolute, rooted without a prefix, or prefixed without a root.
pub open spec fn rel_rejection(s: Seq<char>) -> Option<RelUtf8PathErrorKind> {
    if s.len() == 0 {
        Some(RelUtf8PathErrorKind::Empty)
    } else if has_nul(s) {
        Some(RelUtf8PathErrorKind::ContainsNul)
    } else if path_is_absolute(s) {
        Some(RelUtf8PathErrorKind::Absolute)
    } else if path_has_root(s) {
        Some(RelUtf8PathErrorKind::RootRelative)
    } else if path_prefix_kind(s) is Some {
        Some(RelUtf8PathErrorKind::DriveRelative)
    } else {
        None
    }
}

/// The prefix is a Windows verbatim (`\\?\`) prefix.
pub open spec fn is_verbatim(kind: Option<PrefixKind>) -> bool {
    match kind {
        Some(PrefixKind::Verbatim) | Some(PrefixKind::VerbatimUnc) | Some(
            PrefixKind::VerbatimDisk,
        ) => true,
        Some(PrefixKind::DeviceNs) | Some(PrefixKind::Unc) | Some(PrefixKind::Disk) | None => false,
    }
}

/// The text of a path after its Windows prefix, if it has one.
pub open spec fn after_prefix(s: Seq<char>) -> Seq<char> {
    match path_prefix_text(s) {
        Some(prefix) => s.skip(prefix.len() as int),
        None => s,
    }
}

/// The remainder that stripping `base` from `path` gives, or `None` when
/// `path` is to be displayed as absolute:
///
/// * `base` must be a component prefix of `path` (`Utf8Path::strip_prefix`),
///   however either is spelled;
/// * the two must agree on whether they name the POSIX double root;
/// * a Windows verbatim path may hold neither `/` nor a `.` or `..`
///   component, which such paths do not interpret;
/// * the remainder is the text of `path` after as many names as `base` has
///   (after the prefix), without the separators and `.` components that
///   follow them; nothing left is `.`, and the remainder must be a
///   well-formed relative path.
pub open spec fn stripped_text(path: Seq<char>, base: Seq<char>) -> Option<Seq<char>> {
    if !path_starts_with(path, base) {
        None
    } else if is_double_rooted(path) != is_double_rooted(base) {
        None
    } else if is_verbatim(path_prefix_kind(path)) && (after_prefix(path).contains('/')
        || has_dot_component(after_prefix(path))) {
        None
    } else {
        let rest = after_names(after_prefix(path), names(after_prefix(base)).len());
        let rest = if rest.len() == 0 {
            seq!['.']
        } else {
            rest
        };
        if rel_rejection(rest) is None {
            Some(rest)
        } else {
            None
        }
    }
}

/// What turning a native path's UTF-8 text into an absolute path gives: the
/// path if [`AbsUtf8PathBuf::new`] accepts the text, and otherwise the
/// `Invalid` kind with its rejection.
pub open spec fn native_text_result(
    text: Seq<char>,
    r: Result<AbsUtf8PathBuf, NativePathErrorKind>,
) -> bool {
    match r {
        Ok(absolute) => abs_rejection(text) is None && absolute@ == text,
        Err(NativePathErrorKind::Invalid(error)) => abs_rejection(text) == Some(error@.1)
            && error@.0 == text,
        Err(_) => false,
    }
}

/// What converting a `PathBuf`'s UTF-8 text into an absolute path gives:
/// the path if [`AbsUtf8PathBuf::new`] accepts the text, and otherwise the
/// `Invalid` error with its rejection.
pub open spec fn try_text_result(text: Seq<char>, r: Result<AbsUtf8PathBuf, TryFromPathBufError>) -> bool {
    match r {
        Ok(absolute) => abs_rejection(text) is None && absolute@ == text,
        Err(TryFromPathBufError::Invalid(error)) => abs_rejection(text) == Some(error@.1)
            && error@.0 == text,
        Err(_) => false,
    }
}

/// The error kind that resolution reports for a malformed input.
pub open spec fn malformed_resolve_kind(kind: MalformedPathKind) -> ResolvePathErrorKind {
    match kind {
        MalformedPathKind::Empty => ResolvePathErrorKind::Empty,
        MalformedPathKind::ContainsNul => ResolvePathErrorKind::ContainsNul,
    }
}

/// The remainder that `AbsUtf8PathBuf::strip_prefix` gives, as text.
pub open spec fn strip_result_text(r: Option<RelUtf8PathBuf>) -> Option<Seq<char>> {
    match r {
        Some(p) => Some(p@),
        None => None,
    }
}

// ---------------------------------------------------------------------------
// AbsUtf8PathBuf
// ---------------------------------------------------------------------------

/// An absolute UTF-8 path.
///
/// The path is absolute and does not contain a NUL byte; nothing is implied
/// about whether it exists on disk. Its spelling is kept exactly as given.
///
/// Equality follows `Utf8Path`'s component-based semantics: paths that differ
/// only in spelling, such as `/repo//a` and `/repo/a`, compare equal.
#[derive(Debug)]
pub struct AbsUtf8PathBuf(String);

impl View for AbsUtf8PathBuf {
    type V = Seq<char>;

    closed spec fn view(&self) -> Seq<char> {
        self.0@
    }
}

impl AbsUtf8PathBuf {
    /// Every `AbsUtf8PathBuf` holds the text of a well-formed absolute path.
    #[verifier::type_invariant]
    pub open spec fn is_valid(self) -> bool {
        abs_rejection(self@) is None
    }

    /// Returns a new [`AbsUtf8PathBuf`] from the given path.
    ///
    /// This does not normalize or change the spelling of the path in any way.
    /// Empty paths, paths containing a NUL byte, and paths that are not
    /// absolute are rejected, in that order of precedence.
    pub fn new(path: &str) -> (r: Result<Self, AbsUtf8PathError>)
        ensures
            match r {
                Ok(absolute) => abs_rejection(path@) is None && absolute@ == path@,
                Err(error) => abs_rejection(path@) == Some(error@.1) && error@.0 == path@,
            },
    {
        match classify_path(path.to_owned()) {
            PathClass::Absolute(absolute) => Ok(absolute),
            PathClass::Malformed(path, kind) => Err(
                AbsUtf8PathError::new(path, AbsUtf8PathErrorKind::from(kind)),
            ),
            PathClass::Relative(relative) => Err(
                AbsUtf8PathError::new(relative.into_path_buf(), AbsUtf8PathErrorKind::NotAbsolute),
            ),
            PathClass::RootRelative(path) => Err(
                AbsUtf8PathError::new(path, AbsUtf8PathErrorKind::RootRelative),
            ),
            PathClass::DriveRelative(path) => Err(
                AbsUtf8PathError::new(path, AbsUtf8PathErrorKind::DriveRelative),
            ),
        }
    }

    /// Resolves a path using native platform semantics
    /// (`std::path::absolute`), consulting the current directory for
    /// relative inputs.
    ///
    /// Empty inputs and inputs containing a NUL byte are rejected without
    /// consulting the platform. On Unix, an absolute input is resolved from
    /// its text alone (`.` components and repeated separators are removed)
    /// and always succeeds, and any result ends with the input's names.
    /// Otherwise the outcome depends on the process state, and is turned
    /// into an absolute path or a native error as
    /// [`Self::from_absolute_outcome`] states.
    pub fn resolve_against_current_dir(path: &str) -> (r: Result<Self, ResolvePathError>)
        ensures
            match malformed_kind_of(path@) {
                Some(kind) => r matches Err(error) && error@ == path@ && error.spec_kind()
                    == malformed_resolve_kind(kind),
                None => {
                    &&& unix_rules() && path_is_absolute(path@) ==> (r matches Ok(resolved)
                        && resolved@ == absolute_path_text(path@))
                    &&& unix_rules() ==> (r matches Ok(resolved) ==> names(path@).is_suffix_of(
                        names(resolved@),
                    ))
                    &&& r matches Err(error) ==> error@ == path@ && error.spec_kind() is Native
                },
            },
    {
        let kind = match malformed_kind(path) {
            Some(kind) => ResolvePathErrorKind::from(kind),
            None => match Self::from_absolute_outcome(std_absolute(path)) {
                Ok(resolved) => return Ok(resolved),
                Err(kind) => ResolvePathErrorKind::Native(kind),
            },
        };
        Err(ResolvePathError::new(path.to_owned(), kind))
    }

    /// Turns the outcome of `std::path::absolute`, with a successful result
    /// converted to UTF-8, into an absolute path: an I/O error and a
    /// non-UTF-8 result are kept as such, and a UTF-8 result is handed to
    /// [`Self::from_native_utf8`].
    pub fn from_absolute_outcome(
        outcome: Result<Result<String, camino::FromPathBufError>, std::io::Error>,
    ) -> (r: Result<Self, NativePathErrorKind>)
        ensures
            match outcome {
                Err(error) => r matches Err(NativePathErrorKind::Io(e)) && e == error,
                Ok(Err(error)) => r matches Err(NativePathErrorKind::NonUtf8(e)) && e == error,
                Ok(Ok(text)) => native_text_result(text@, r),
            },
    {
        match outcome {
            Ok(text) => Self::from_native_utf8(text),
            Err(error) => Err(NativePathErrorKind::Io(error)),
        }
    }

    /// Turns the outcome of a native path query into an absolute path: an
    /// I/O error is kept, and a path is converted to UTF-8
    /// (`Utf8PathBuf::try_from`) and handed to [`Self::from_native_utf8`].
    pub fn from_native(path: Result<std::path::PathBuf, std::io::Error>) -> (r: Result<
        Self,
        NativePathErrorKind,
    >)
        ensures
            match path {
                Err(error) => r matches Err(NativePathErrorKind::Io(e)) && e == error,
                Ok(native) => match path_buf_text(native) {
                    Some(text) => native_text_result(text, r),
                    None => r matches Err(NativePathErrorKind::NonUtf8(_)),
                },
            },
    {
        let path = match path {
            Ok(path) => path,
            Err(error) => return Err(NativePathErrorKind::Io(error)),
        };
        Self::from_native_utf8(utf8_from_path_buf(path))
    }

    /// Turns a native path, after its conversion to UTF-8, into an absolute
    /// path: a non-UTF-8 path is reported as such, and a UTF-8 path must be
    /// accepted by [`Self::new`].
    pub fn from_native_utf8(path: Result<String, camino::FromPathBufError>) -> (r: Result<
        Self,
        NativePathErrorKind,
    >)
        ensures
            match path {
                Ok(text) => native_text_result(text@, r),
                Err(error) => r matches Err(NativePathErrorKind::NonUtf8(e)) && e == error,
            },
    {
        let path = match path {
            Ok(path) => path,
            Err(error) => return Err(NativePathErrorKind::NonUtf8(error)),
        };
        match Self::new(path.as_str()) {
            Ok(absolute) => Ok(absolute),
            Err(error) => Err(NativePathErrorKind::Invalid(error)),
        }
    }

    /// Converts a `PathBuf` into an absolute path: it must be UTF-8 (checked
    /// by `Utf8PathBuf::try_from`) and be accepted by [`Self::new`], as
    /// [`Self::try_from_utf8_text`] states.
    pub fn try_from_path_buf(path: std::path::PathBuf) -> (r: Result<Self, TryFromPathBufError>)
        ensures
            match path_buf_text(path) {
                Some(text) => try_text_result(text, r),
                None => r matches Err(TryFromPathBufError::NonUtf8(_)),
            },
    {
        Self::try_from_utf8_text(utf8_from_path_buf(path))
    }

    /// Converts the outcome of a `PathBuf`'s conversion to UTF-8 into an
    /// absolute path: a non-UTF-8 path is reported as such, and a UTF-8 path
    /// must be accepted by [`Self::new`].
    pub fn try_from_utf8_text(path: Result<String, camino::FromPathBufError>) -> (r: Result<
        Self,
        TryFromPathBufError,
    >)
        ensures
            match path {
                Ok(text) => try_text_result(text@, r),
                Err(error) => r matches Err(TryFromPathBufError::NonUtf8(e)) && e == error,
            },
    {
        let path = match path {
            Ok(path) => path,
            Err(error) => return Err(TryFromPathBufError::NonUtf8(error)),
        };
        match Self::new(path.as_str()) {
            Ok(absolute) => Ok(absolute),
            Err(error) => Err(TryFromPathBufError::Invalid(error)),
        }
    }

    /// Returns the path's text.
    pub fn as_path(&self) -> (r: &str)
        ensures
            r@ == self@,
    {
        self.0.as_str()
    }

    /// Consumes the path, returning its text.
    pub fn into_path_buf(self) -> (r: String)
        ensures
            r@ == self@,
    {
        self.0
    }

    /// Returns the path's text, spelled as given.
    pub fn to_string(&self) -> (r: String)
        ensures
            r@ == self@,
    {
        self.0.clone()
    }

    /// Returns the parent directory of `self`, or `None` if `self` is a
    /// root such as `/`.
    ///
    /// The result is computed from the path's text (`Utf8Path::parent`),
    /// without consulting the file system; it is a leading part of the text.
    /// On Unix-like targets, a path has a parent exactly when it names
    /// something below the root. The parent of an absolute path is absolute;
    /// should the platform ever report one that is not, there is none.
    pub fn parent(&self) -> (r: Option<Self>)
        ensures
            r is Some <==> (path_parent(self@) matches Some(t) && abs_rejection(t) is None),
            r matches Some(parent) ==> parent@ == path_parent(self@)->0 && parent@.is_prefix_of(
                self@,
            ),
            unix_rules() ==> (r is Some <==> names(self@).len() > 0),
    {
        proof {
            use_type_invariant(self);
        }
        match utf8_parent(self.0.as_str()) {
            Some(parent) => {
                proof {
                    lemma_no_nul_parts(self@, parent@.len() as int);
                    assert(parent@ =~= self@.take(parent@.len() as int));
                    if unix_rules() {
                        assert(path_is_absolute(self@));
                        assert(is_rooted(parent@));
                        assert(path_is_absolute(parent@));
                    }
                }
                match AbsUtf8PathBuf::new(parent.as_str()) {
                    Ok(parent) => Some(parent),
                    Err(_) => None,
                }
            },
            None => {
                proof {
                    if unix_rules() {
                        assert(path_is_absolute(self@));
                        assert(path_parent(self@) is None);
                    }
                }
                None
            },
        }
    }

    /// Resolves a relative path against `self`, interpreted as a directory
    /// (`Utf8Path::join`). On Unix-like targets the relative text is
    /// appended after a separator, unless `self` already ends with one; on
    /// Windows, a verbatim base is normalized as `PathBuf::push` documents.
    ///
    /// Since the suffix is relative, it cannot replace the root or Windows
    /// prefix. Parent components are allowed: the result need not lie within
    /// `self`.
    pub fn join(&self, suffix: &RelUtf8PathBuf) -> (r: Self)
        ensures
            r@ == path_join(self@, suffix@),
    {
        proof {
            use_type_invariant(self);
            use_type_invariant(suffix);
        }
        AbsUtf8PathBuf(utf8_join(self.0.as_str(), suffix.0.as_str()))
    }

    /// Strips `base`, preserving the way `self` is spelled afterwards.
    ///
    /// `base` is matched by its components, so bases that are equal as paths
    /// but spelled differently (such as `/repo`, `/repo/` and `/repo/.`)
    /// give the same result. The remainder is `self`'s text after the
    /// components of `base`, without the separators and `.` components that
    /// follow them, kept as spelled from there on; it may contain `..`
    /// components, and is `.` if nothing is left. Returns `None` (display
    /// the path as absolute) if:
    ///
    /// * `Utf8Path::strip_prefix` rejects the pair;
    /// * exactly one of the two is spelled with the POSIX double root `//`;
    /// * `self` is a Windows verbatim (`\\?\`) path holding `/`, or a `.`
    ///   or `..` component, which such paths do not interpret;
    /// * the remainder is not a well-formed relative path (for example,
    ///   `C:stream` in `C:\repo\C:stream` on Windows).
    pub fn strip_prefix(&self, base: &AbsUtf8PathBuf) -> (r: Option<RelUtf8PathBuf>)
        ensures
            strip_result_text(r) == stripped_text(self@, base@),
    {
        strip_prefix_preserving_spelling(self.0.as_str(), base.0.as_str())
    }
}

impl Clone for AbsUtf8PathBuf {
    fn clone(&self) -> (r: Self)
        ensures
            r@ == self@,
    {
        proof {
            use_type_invariant(self);
        }
        AbsUtf8PathBuf(self.0.clone())
    }
}

impl PartialEq for AbsUtf8PathBuf {
    fn eq(&self, other: &Self) -> (r: bool) {
        utf8_eq(self.0.as_str(), other.0.as_str())
    }
}

impl vstd::std_specs::cmp::PartialEqSpecImpl for AbsUtf8PathBuf {
    open spec fn obeys_eq_spec() -> bool {
        true
    }

    open spec fn eq_spec(&self, other: &Self) -> bool {
        paths_equal(self@, other@)
    }
}

impl Eq for AbsUtf8PathBuf {}

impl core::hash::Hash for AbsUtf8PathBuf {
    /// Hashes the path as `Utf8Path` does, by its components, so that paths
    /// that compare equal hash equally.
    #[verifier::external_body]
    fn hash<H: core::hash::Hasher>(&self, state: &mut H) {
        camino::Utf8Path::new(self.0.as_str()).hash(state)
    }
}

// ---------------------------------------------------------------------------
// RelUtf8PathBuf
// ---------------------------------------------------------------------------

/// A well-formed relative UTF-8 path: not empty, without a NUL byte, and
/// not absolute. Parent components are allowed, and the spelling is kept
/// exactly as given.
///
/// Equality follows `Utf8Path`'s component-based semantics: paths that differ
/// only in spelling, such as `a//b` and `a/b`, compare equal.
#[derive(Debug)]
pub struct RelUtf8PathBuf(String);

impl View for RelUtf8PathBuf {
    type V = Seq<char>;

    closed spec fn view(&self) -> Seq<char> {
        self.0@
    }
}

impl RelUtf8PathBuf {
    /// Every `RelUtf8PathBuf` holds the text of a well-formed relative path.
    #[verifier::type_invariant]
    pub open spec fn is_valid(self) -> bool {
        rel_rejection(self@) is None
    }

    /// Returns a new [`RelUtf8PathBuf`] from the given path.
    ///
    /// This does not normalize or change the spelling of the path in any way.
    /// Empty paths, paths containing a NUL byte, and absolute paths are
    /// rejected, in that order of precedence.
    pub fn new(path: &str) -> (r: Result<Self, RelUtf8PathError>)
        ensures
            match r {
                Ok(relative) => rel_rejection(path@) is None && relative@ == path@,
                Err(error) => rel_rejection(path@) == Some(error@.1) && error@.0 == path@,
            },
    {
        match classify_path(path.to_owned()) {
            PathClass::Relative(relative) => Ok(relative),
            PathClass::Malformed(path, kind) => Err(
                RelUtf8PathError::new(path, RelUtf8PathErrorKind::from(kind)),
            ),
            PathClass::Absolute(absolute) => Err(
                RelUtf8PathError::new(absolute.into_path_buf(), RelUtf8PathErrorKind::Absolute),
            ),
            PathClass::RootRelative(path) => Err(
                RelUtf8PathError::new(path, RelUtf8PathErrorKind::RootRelative),
            ),
            PathClass::DriveRelative(path) => Err(
                RelUtf8PathError::new(path, RelUtf8PathErrorKind::DriveRelative),
            ),
        }
    }

    /// Returns the path's text.
    pub fn as_path(&self) -> (r: &str)
        ensures
            r@ == self@,
    {
        self.0.as_str()
    }

    /// Consumes the path, returning its text.
    pub fn into_path_buf(self) -> (r: String)
        ensures
            r@ == self@,
    {
        self.0
    }

    /// Returns the path's text, spelled as given.
    pub fn to_string(&self) -> (r: String)
        ensures
            r@ == self@,
    {
        self.0.clone()
    }
}

impl Clone for RelUtf8PathBuf {
    fn clone(&self) -> (r: Self)
        ensures
            r@ == self@,
    {
        proof {
            use_type_invariant(self);
        }
        RelUtf8PathBuf(self.0.clone())
    }
}

impl PartialEq for RelUtf8PathBuf {
    fn eq(&self, other: &Self) -> (r: bool) {
        utf8_eq(self.0.as_str(), other.0.as_str())
    }
}

impl vstd::std_specs::cmp::PartialEqSpecImpl for RelUtf8PathBuf {
    open spec fn obeys_eq_spec() -> bool {
        true
    }

    open spec fn eq_spec(&self, other: &Self) -> bool {
        paths_equal(self@, other@)
    }
}

impl Eq for RelUtf8PathBuf {}

impl core::hash::Hash for RelUtf8PathBuf {
    /// Hashes the path as `Utf8Path` does, by its components, so that paths
    /// that compare equal hash equally.
    #[verifier::external_body]
    fn hash<H: core::hash::Hasher>(&self, state: &mut H) {
        camino::Utf8Path::new(self.0.as_str()).hash(state)
    }
}

// ---------------------------------------------------------------------------
// Classification
// ---------------------------------------------------------------------------

/// What a path text is.
pub(crate) enum PathClass {
    Malformed(String, MalformedPathKind),
    Absolute(AbsUtf8PathBuf),
    Relative(RelUtf8PathBuf),
    RootRelative(String),
    DriveRelative(String),
}

/// Sorts a path text into malformed, absolute, root-relative,
/// drive-relative or relative (the middle two only occur on Windows).
pub(crate) fn classify_path(path: String) -> (r: PathClass)
    ensures
        match r {
            PathClass::Malformed(p, kind) => p@ == path@ && malformed_kind_of(path@) == Some(kind),
            PathClass::Absolute(absolute) => absolute@ == path@ && malformed_kind_of(path@) is None
                && path_is_absolute(path@),
            PathClass::RootRelative(p) => p@ == path@ && malformed_kind_of(path@) is None
                && !path_is_absolute(path@) && path_has_root(path@),
            PathClass::DriveRelative(p) => p@ == path@ && malformed_kind_of(path@) is None
                && !path_is_absolute(path@) && !path_has_root(path@) && path_prefix_kind(
                path@,
            ) is Some,
            PathClass::Relative(relative) => relative@ == path@ && malformed_kind_of(path@) is None
                && !path_is_absolute(path@) && !path_has_root(path@) && path_prefix_kind(
                path@,
            ) is None,
        },
{
    if let Some(kind) = malformed_kind(path.as_str()) {
        PathClass::Malformed(path, kind)
    } else if utf8_is_absolute(path.as_str()) {
        PathClass::Absolute(AbsUtf8PathBuf(path))
    } else if utf8_has_root(path.as_str()) {
        PathClass::RootRelative(path)
    } else if utf8_prefix_kind(path.as_str()).is_some() {
        PathClass::DriveRelative(path)
    } else {
        PathClass::Relative(RelUtf8PathBuf(path))
    }
}

/// How `path` is malformed, if it is.
fn malformed_kind(path: &str) -> (r: Option<MalformedPathKind>)
    ensures
        r == malformed_kind_of(path@),
{
    if path.is_empty() {
        Some(MalformedPathKind::Empty)
    } else if contains_nul(path) {
        Some(MalformedPathKind::ContainsNul)
    } else {
        None
    }
}

/// Whether `path` is a Windows verbatim (`\\?\`) path. Device namespace,
/// ordinary UNC and drive paths are not, and on other targets no path has a
/// prefix.
fn is_verbatim_path(path: &str) -> (r: bool)
    ensures
        r == is_verbatim(path_prefix_kind(path@)),
{
    match utf8_prefix_kind(path) {
        Some(PrefixKind::Verbatim) | Some(PrefixKind::VerbatimUnc) | Some(
            PrefixKind::VerbatimDisk,
        ) => true,
        Some(PrefixKind::DeviceNs) | Some(PrefixKind::Unc) | Some(PrefixKind::Disk) | None => false,
    }
}

/// The text of `path` after its Windows prefix, if it has one.
fn text_after_prefix(path: &str) -> (r: &str)
    ensures
        r@ == after_prefix(path@),
{
    match utf8_prefix_text(path) {
        Some(prefix) => {
            let start = prefix.unicode_len();
            let r = path.substring_char(start, path.unicode_len());
            assert(r@ =~= path@.skip(start as int));
            r
        },
        None => path,
    }
}

/// Determines the relative display suffix of `path` under `base`, or `None`
/// if `path` should be displayed as absolute.
fn strip_prefix_preserving_spelling(path: &str, base: &str) -> (r: Option<RelUtf8PathBuf>)
    ensures
        strip_result_text(r) == stripped_text(path@, base@),
{
    // `base` must be a component prefix of `path`; how `base` is spelled
    // does not matter beyond that.
    if !utf8_starts_with(path, base) {
        return None;
    }
    // POSIX permits exactly two leading slashes to name a distinct root,
    // which components do not tell apart from one.
    if has_double_root(path) != has_double_root(base) {
        return None;
    }
    let path_rest = text_after_prefix(path);
    // Windows does not interpret `/`, `.` or `..` in a verbatim path, so a
    // remainder holding them would name something else once detached.
    if is_verbatim_path(path) && (contains_char(path_rest, '/') || contains_dot_component(
        path_rest,
    )) {
        return None;
    }
    // Pass over as many names as `base` has; what follows keeps the spelling
    // of `path`.
    let rest = skip_names(path_rest, name_count(text_after_prefix(base)));
    let ghost remainder = rest@;
    // Nothing left is the base itself, displayed as the current directory.
    let rest = if rest.is_empty() {
        proof {
            reveal_strlit(".");
            assert("."@ =~= seq!['.']);
        }
        "."
    } else {
        rest
    };
    assert(rest@ == if remainder.len() == 0 {
        seq!['.']
    } else {
        remainder
    });
    // The rest can acquire another meaning once detached from its prefix
    // (on Windows, `C:\repo\C:stream` must not give the drive-relative
    // `C:stream`): it must be a well-formed relative path.
    match RelUtf8PathBuf::new(rest) {
        Ok(relative) => Some(relative),
        Err(_) => None,
    }
}

// ---------------------------------------------------------------------------
// Logical current directory
// ---------------------------------------------------------------------------

/// The text of the `PWD` value, if it is set and valid UTF-8 (as
/// `Utf8PathBuf::try_from` decides).
pub fn pwd_text(pwd: Option<std::path::PathBuf>) -> (r: Option<String>)
    ensures
        match pwd {
            None => r is None,
            Some(native) => match path_buf_text(native) {
                Some(text) => r matches Some(t) && t@ == text,
                None => r is None,
            },
        },
{
    match pwd {
        Some(pwd) => match utf8_from_path_buf(pwd) {
            Ok(text) => Some(text),
            Err(_) => None,
        },
        None => None,
    }
}

/// Chooses the logical current directory: the `PWD` text if it is given,
/// is a well-formed absolute path, and `names_same_directory` reports that it
/// names the same directory as `physical`; otherwise `physical`.
///
/// `pwd` is `None` when `PWD` is unset or not valid UTF-8.
pub fn choose_logical_current_dir<F: Fn(&AbsUtf8PathBuf, &AbsUtf8PathBuf) -> bool>(
    pwd: Option<String>,
    physical: AbsUtf8PathBuf,
    names_same_directory: F,
) -> (r: AbsUtf8PathBuf)
    requires
        forall|a: &AbsUtf8PathBuf, b: &AbsUtf8PathBuf| names_same_directory.requires((a, b)),
    ensures
        match pwd {
            None => r == physical,
            Some(text) => if abs_rejection(text@) is Some {
                r == physical
            } else {
                ||| r@ == text@ && names_same_directory.ensures((&r, &physical), true)
                ||| r == physical && exists|p: AbsUtf8PathBuf|
                    p@ == text@ && #[trigger] names_same_directory.ensures((&p, &physical), false)
            },
        },
{
    let pwd = match pwd {
        Some(pwd) => pwd,
        None => return physical,
    };
    let pwd = match AbsUtf8PathBuf::new(pwd.as_str()) {
        Ok(pwd) => pwd,
        Err(_) => return physical,
    };
    let same = names_same_directory(&pwd, &physical);
    if same {
        pwd
    } else {
        assert(names_same_directory.ensures((&pwd, &physical), false));
        physical
    }
}

} // verus!
