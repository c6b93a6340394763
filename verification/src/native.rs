//! The calls this library makes into `camino` and into `std::path`, each
//! with the contract the library relies on.
//!
//! The path rules of the target platform (which characters separate
//! components, which texts are absolute, which start with a Windows prefix)
//! are not stated here: each is a named result of the call that decides it.
//! [`unix_rules`] collects what those names are on Unix targets.

use vstd::prelude::*;
use crate::paths::is_verbatim;
use crate::text::{
    components_prefix, ends_with_sep, has_nul, is_rooted, is_sep, join_text, names,
    unix_components,
};
use camino::{Utf8Component, Utf8Prefix};

verus! {

/// `std::io::Error`, carried opaquely in native errors.
#[verifier::external_type_specification]
#[verifier::external_body]
pub struct ExIoError(std::io::Error);

/// `std::path::PathBuf`, carried opaquely from native queries.
#[verifier::external_type_specification]
#[verifier::external_body]
pub struct ExPathBuf(std::path::PathBuf);

/// `camino::FromPathBufError`, carried opaquely in errors about non-UTF-8
/// paths.
#[verifier::external_type_specification]
#[verifier::external_body]
pub struct ExFromPathBufError(camino::FromPathBufError);

/// `FromPathBufError::clone` (derived): a copy of the error. Nothing is
/// claimed of it, as the error is opaque here.
pub assume_specification[ <camino::FromPathBufError as Clone>::clone ](
    error: &camino::FromPathBufError,
) -> camino::FromPathBufError;

/// The kinds of prefix a path may start with on Windows.
pub enum PrefixKind {
    Verbatim,
    VerbatimUnc,
    VerbatimDisk,
    DeviceNs,
    Unc,
    Disk,
}

/// Whether `std::path::is_separator` accepts `c` on the target platform.
pub uninterp spec fn target_is_separator(c: char) -> bool;

/// Whether `Utf8Path::is_absolute` holds of a path text.
pub uninterp spec fn path_is_absolute(path: Seq<char>) -> bool;

/// Whether `Utf8Path::has_root` holds of a path text.
pub uninterp spec fn path_has_root(path: Seq<char>) -> bool;

/// The kind of the prefix that `Utf8Path::components` yields first for a
/// path text, if its first component is a prefix.
pub uninterp spec fn path_prefix_kind(path: Seq<char>) -> Option<PrefixKind>;

/// The text of `Utf8Path::join(base, rel)`.
pub uninterp spec fn path_join(base: Seq<char>, rel: Seq<char>) -> Seq<char>;

/// Whether two path texts compare equal as `Utf8Path`s.
pub uninterp spec fn paths_equal(a: Seq<char>, b: Seq<char>) -> bool;

/// The parent that `Utf8Path::parent` returns for a path text.
pub uninterp spec fn path_parent(path: Seq<char>) -> Option<Seq<char>>;

/// Whether `Utf8Path::strip_prefix` accepts `base` as a component prefix of
/// `path`.
pub uninterp spec fn path_starts_with(path: Seq<char>, base: Seq<char>) -> bool;

/// The text that `Utf8Path`'s `Debug` implementation writes for a path.
pub uninterp spec fn path_debug_text(path: Seq<char>) -> Seq<char>;

/// The text of the prefix that `Utf8Path::components` yields first for a
/// path text, if its first component is a prefix.
pub uninterp spec fn path_prefix_text(path: Seq<char>) -> Option<Seq<char>>;

/// The text of `std::path::absolute(path)` for an absolute `path`, which
/// Unix computes from the text alone.
pub uninterp spec fn absolute_path_text(path: Seq<char>) -> Seq<char>;

/// The text of a `PathBuf` when `Utf8PathBuf::try_from` accepts it as
/// UTF-8, `None` when it does not.
pub uninterp spec fn path_buf_text(path: std::path::PathBuf) -> Option<Seq<char>>;

/// The lossy display (`Path::display`) of the path that a
/// `FromPathBufError` holds.
pub uninterp spec fn non_utf8_path_text(error: camino::FromPathBufError) -> Seq<char>;

/// The path rules of Unix targets (Cygwin, which also knows `\` and Windows
/// prefixes, excepted), as `std::path` documents them:
/// `/` is the only separator; a path is absolute, and has a root, exactly
/// when it starts with `/`; no path has a prefix; joining a relative path
/// appends it after a `/` unless the base is empty or ends with one; two
/// paths are equal, and one starts with the other (an empty base begins
/// every path), by the components that `Path::components` documents; and a rooted path has a parent exactly when
/// it names something below the root, the rooted path of all its names but
/// the last.
pub open spec fn unix_rules() -> bool {
    &&& forall|c: char| #[trigger] target_is_separator(c) <==> c == '/'
    &&& forall|s: Seq<char>| #[trigger] path_is_absolute(s) <==> is_rooted(s)
    &&& forall|s: Seq<char>| #[trigger] path_has_root(s) <==> is_rooted(s)
    &&& forall|s: Seq<char>| #[trigger] path_prefix_kind(s) is None
    &&& forall|s: Seq<char>| #[trigger] path_prefix_text(s) is None
    &&& forall|b: Seq<char>, r: Seq<char>|
        !is_rooted(r) ==> #[trigger] path_join(b, r) == join_text(b, r)
    &&& forall|a: Seq<char>, b: Seq<char>|
        #[trigger] paths_equal(a, b) <==> unix_components(a) == unix_components(b)
    &&& forall|p: Seq<char>, b: Seq<char>|
        #[trigger] path_starts_with(p, b) <==> components_prefix(b, p)
    &&& forall|s: Seq<char>|
        is_rooted(s) ==> (#[trigger] path_parent(s) is Some <==> names(s).len() > 0)
    &&& forall|s: Seq<char>|
        is_rooted(s) && #[trigger] path_parent(s) is Some ==> {
            let p = path_parent(s)->0;
            &&& is_rooted(p)
            &&& names(p) == names(s).drop_last()
        }
}

/// What `PathBuf::push` documents for adjoining `rel` to `base` on every
/// target, when `base` is not a Windows verbatim path and `rel` starts with
/// neither a separator nor a prefix: `rel` is appended, after one separator
/// unless `base` ends with one; the prefix of `base` (a leading part of its
/// text) stays the prefix of the result; and `base` is a component prefix
/// of the result. `/` is a separator and `.` is not, on every target.
pub open spec fn push_adjoins(base: Seq<char>, rel: Seq<char>) -> bool {
    let joined = path_join(base, rel);
    &&& target_is_separator('/')
    &&& !target_is_separator('.')
    &&& !is_rooted(rel)
    &&& !is_verbatim(path_prefix_kind(base))
    &&& path_prefix_kind(joined) == path_prefix_kind(base)
    &&& path_prefix_text(joined) == path_prefix_text(base)
    &&& (path_prefix_text(base) matches Some(prefix) ==> prefix.is_prefix_of(base))
    &&& path_starts_with(joined, base)
    &&& if ends_with_sep(base) {
        joined == base + rel
    } else {
        exists|c: char| is_sep(c) && joined == base + seq![c] + rel
    }
}

/// `std::path::is_separator`: whether `c` separates path components on the
/// target platform. Its documentation shows `/` accepted on every platform.
#[verifier::external_body]
pub(crate) fn std_is_separator(c: char) -> (r: bool)
    ensures
        r == target_is_separator(c),
        c == '/' ==> r,
{
    std::path::is_separator(c)
}

/// `Utf8Path::is_absolute`.
#[verifier::external_body]
pub(crate) fn utf8_is_absolute(path: &str) -> (r: bool)
    ensures
        r == path_is_absolute(path@),
{
    camino::Utf8Path::new(path).is_absolute()
}

/// `Utf8Path::has_root`.
#[verifier::external_body]
pub(crate) fn utf8_has_root(path: &str) -> (r: bool)
    ensures
        r == path_has_root(path@),
{
    camino::Utf8Path::new(path).has_root()
}

/// The prefix kind of the first component that `Utf8Path::components`
/// yields, if it is a prefix (which happens on Windows only).
#[verifier::external_body]
pub(crate) fn utf8_prefix_kind(path: &str) -> (r: Option<PrefixKind>)
    ensures
        r == path_prefix_kind(path@),
{
    match camino::Utf8Path::new(path).components().next() {
        Some(Utf8Component::Prefix(prefix)) => Some(match prefix.kind() {
            Utf8Prefix::Verbatim(_) => PrefixKind::Verbatim,
            Utf8Prefix::VerbatimUNC(..) => PrefixKind::VerbatimUnc,
            Utf8Prefix::VerbatimDisk(_) => PrefixKind::VerbatimDisk,
            Utf8Prefix::DeviceNS(_) => PrefixKind::DeviceNs,
            Utf8Prefix::UNC(..) => PrefixKind::Unc,
            Utf8Prefix::Disk(_) => PrefixKind::Disk,
        }),
        _ => None,
    }
}

/// The text of the prefix that `Utf8Path::components` yields first, if the
/// first component is a prefix (which happens on Windows only): a leading
/// part of the path (`Utf8PrefixComponent::as_str` is a slice of it).
#[verifier::external_body]
pub(crate) fn utf8_prefix_text(path: &str) -> (r: Option<String>)
    ensures
        r is Some <==> path_prefix_kind(path@) is Some,
        r is None <==> path_prefix_text(path@) is None,
        r matches Some(t) ==> Some(t@) == path_prefix_text(path@) && t@.is_prefix_of(path@),
{
    match camino::Utf8Path::new(path).components().next() {
        Some(Utf8Component::Prefix(prefix)) => Some(prefix.as_str().to_owned()),
        _ => None,
    }
}

/// `Utf8Path::parent`: the path without its final component, or `None` if
/// the path ends in a root or prefix. Claimed beyond the name: the parent
/// is a leading part of the text (`Path::parent` returns a sub-slice of the
/// path), and the parent of a rooted path is rooted.
#[verifier::external_body]
pub(crate) fn utf8_parent(path: &str) -> (r: Option<String>)
    ensures
        r is Some == path_parent(path@) is Some,
        r matches Some(p) ==> {
            &&& p@ == path_parent(path@)->0
            &&& p@.is_prefix_of(path@)
            &&& is_rooted(path@) ==> is_rooted(p@)
        },
{
    camino::Utf8Path::new(path).parent().map(|p| p.as_str().to_owned())
}

/// `Utf8Path::join` (`PathBuf::push`). Claimed beyond the name, from the
/// documentation of `PathBuf::push`: a path with neither a root nor a
/// prefix is adjoined to the base (on Windows, a verbatim base is
/// normalized), so joining it onto an absolute base gives an absolute path,
/// and no character other than a separator is added.
#[verifier::external_body]
pub(crate) fn utf8_join(base: &str, rel: &str) -> (r: String)
    ensures
        r@ == path_join(base@, rel@),
        path_is_absolute(base@) && !path_is_absolute(rel@) && !path_has_root(rel@)
            && path_prefix_kind(rel@) is None ==> {
            &&& path_is_absolute(r@)
            &&& r@.len() > 0
            &&& !has_nul(base@) && !has_nul(rel@) ==> !has_nul(r@)
        },
{
    camino::Utf8Path::new(base).join(rel).into_string()
}

/// Whether `Utf8Path::strip_prefix(path, base)` succeeds.
#[verifier::external_body]
pub(crate) fn utf8_starts_with(path: &str, base: &str) -> (r: bool)
    ensures
        r == path_starts_with(path@, base@),
{
    camino::Utf8Path::new(path).strip_prefix(base).is_ok()
}

/// `Utf8Path` equality, which compares the paths' components; a text
/// equals itself.
#[verifier::external_body]
pub(crate) fn utf8_eq(a: &str, b: &str) -> (r: bool)
    ensures
        r == paths_equal(a@, b@),
        a@ == b@ ==> r,
{
    camino::Utf8Path::new(a) == camino::Utf8Path::new(b)
}

/// The `Debug` text of a `Utf8Path` (a quoted, escaped string).
#[verifier::external_body]
pub(crate) fn utf8_debug_text(path: &str) -> (r: String)
    ensures
        r@ == path_debug_text(path@),
{
    format!("{:?}", camino::Utf8Path::new(path))
}

/// `std::path::absolute`, with a successful result converted to UTF-8 by
/// `Utf8PathBuf::try_from`. Claimed on Unix targets only, from the
/// documentation there (paths are resolved by POSIX rules without resolving
/// symlinks, keeping `..` components; an error comes only for a
/// syntactically invalid path or when the current directory cannot be
/// read): a NUL-free absolute input reads no process state and gives the
/// absolute, NUL-free text that is computed from the input alone; and any
/// result, for any input, ends with the input's names (a relative input is
/// appended to the current directory). On other targets nothing is claimed.
#[verifier::external_body]
pub(crate) fn std_absolute(path: &str) -> (r: Result<Result<String, camino::FromPathBufError>, std::io::Error>)
    ensures
        unix_rules() && path_is_absolute(path@) && !has_nul(path@) ==> r matches Ok(Ok(_)),
        r matches Ok(Ok(t)) ==> (unix_rules() && path_is_absolute(path@) && !has_nul(path@) ==> {
            &&& t@ == absolute_path_text(path@)
            &&& path_is_absolute(t@)
            &&& t@.len() > 0
            &&& !has_nul(t@)
        }),
        r matches Ok(Ok(t)) ==> (unix_rules() ==> names(path@).is_suffix_of(names(t@))),
{
    std::path::absolute(path).map(|p| camino::Utf8PathBuf::try_from(p).map(camino::Utf8PathBuf::into_string))
}

/// `Utf8PathBuf::try_from(PathBuf)`, returning the text of a UTF-8 path.
#[verifier::external_body]
pub(crate) fn utf8_from_path_buf(path: std::path::PathBuf) -> (r: Result<String, camino::FromPathBufError>)
    ensures
        r is Ok <==> path_buf_text(path) is Some,
        r matches Ok(t) ==> t@ == path_buf_text(path)->0,
{
    camino::Utf8PathBuf::try_from(path).map(camino::Utf8PathBuf::into_string)
}

/// The lossy display text (`Path::display`) of the path held by a
/// `FromPathBufError`.
#[verifier::external_body]
pub(crate) fn non_utf8_path_display(error: &camino::FromPathBufError) -> (r: String)
    ensures
        r@ == non_utf8_path_text(*error),
{
    format!("{}", error.as_path().display())
}

/// The `Display` text of a `FromPathBufError`: `PathBuf contains invalid
/// UTF-8: ` followed by the lossy display of the path.
#[verifier::external_body]
pub(crate) fn from_path_buf_error_text(error: &camino::FromPathBufError) -> (r: String)
    ensures
        r@ == "PathBuf contains invalid UTF-8: "@ + non_utf8_path_text(*error),
{
    format!("{}", error)
}

} // verus!
