//! Resolving paths against an explicit base directory, and displaying them
//! relative to it where possible.

use vstd::prelude::*;
use vstd::string::*;
use crate::errors::{malformed_kind_of, ResolvePathError, ResolvePathErrorKind};
use crate::native::{path_has_root, path_is_absolute, path_join, path_prefix_kind};
use crate::paths::{
    classify_path, malformed_resolve_kind, stripped_text, AbsUtf8PathBuf, PathClass,
    RelUtf8PathBuf,
};

verus! {

/// An anchored path, as (absolute text, relative text if one is kept).
pub type AnchoredView = (Seq<char>, Option<Seq<char>>);

/// A relative path resolved against `base`: the joined location, displayed
/// with the relative path's own spelling.
pub open spec fn anchored_relative(base: Seq<char>, relative: Seq<char>) -> AnchoredView {
    (path_join(base, relative), Some(relative))
}

/// An absolute path kept as it is, displayed relative to `base` when
/// stripping `base` from it succeeds.
pub open spec fn anchored_absolute(base: Seq<char>, absolute: Seq<char>) -> AnchoredView {
    (absolute, stripped_text(absolute, base))
}

/// A well-formed input resolved against `base`: absolute inputs keep their
/// location, relative ones are joined onto `base`.
pub open spec fn anchored_input(base: Seq<char>, input: Seq<char>) -> AnchoredView {
    if path_is_absolute(input) {
        anchored_absolute(base, input)
    } else {
        anchored_relative(base, input)
    }
}

/// The text an anchored path is displayed as: its relative form when it has
/// one, its absolute form otherwise.
pub open spec fn display_text(path: AnchoredView) -> Seq<char> {
    match path.1 {
        Some(relative) => relative,
        None => path.0,
    }
}

/// An explicit absolute directory used to resolve and display paths.
///
/// The base path is treated as a directory, but this fact is not checked
/// against the filesystem.
///
/// * [`resolve_relative`](Self::resolve_relative) interprets a known relative
///   path against this base, using the same base for location and display.
/// * [`resolve_absolute`](Self::resolve_absolute) keeps an existing absolute
///   location, but allows displaying it relative to this base.
/// * [`resolve_input`](Self::resolve_input) accepts arbitrary input, such as
///   a command-line argument, and chooses between the two.
#[derive(Clone, Debug, PartialEq, Eq, Hash)]
pub struct PathAnchor {
    directory: AbsUtf8PathBuf,
}

impl View for PathAnchor {
    type V = Seq<char>;

    closed spec fn view(&self) -> Seq<char> {
        self.directory@
    }
}

impl PathAnchor {
    /// Creates a new `PathAnchor` with the given (absolute) directory.
    ///
    /// The path is interpreted as a directory without accessing the
    /// filesystem.
    pub fn new(directory: AbsUtf8PathBuf) -> (r: Self)
        ensures
            r@ == directory@,
    {
        Self { directory }
    }

    /// Returns the base directory.
    pub fn directory(&self) -> (r: &AbsUtf8PathBuf)
        ensures
            r@ == self@,
    {
        &self.directory
    }

    /// Resolves a relative path, preserving it for display.
    pub fn resolve_relative(&self, relative: RelUtf8PathBuf) -> (r: AnchoredPath)
        ensures
            r@ == anchored_relative(self@, relative@),
    {
        AnchoredPath { absolute: self.directory.join(&relative), relative: Some(relative) }
    }

    /// Uses an existing absolute location, but allows it to be displayed
    /// relative to this base.
    ///
    /// The provided path is stored unchanged. The relative form used for
    /// display is computed with [`AbsUtf8PathBuf::strip_prefix`].
    pub fn resolve_absolute(&self, absolute: AbsUtf8PathBuf) -> (r: AnchoredPath)
        ensures
            r@ == anchored_absolute(self@, absolute@),
    {
        let relative = absolute.strip_prefix(&self.directory);
        AnchoredPath { absolute, relative }
    }

    /// Resolves an input path.
    ///
    /// * A well-formed relative path is resolved with
    ///   [`Self::resolve_relative`].
    /// * An absolute path is resolved with [`Self::resolve_absolute`].
    /// * On Windows, drive-relative or root-relative paths (such as `C:foo`
    ///   or `\foo`) are resolved against the process's current directory
    ///   first, then handed to [`Self::resolve_absolute`]; an error from that
    ///   resolution is returned with the input.
    /// * Empty inputs and inputs containing a NUL byte are rejected.
    pub fn resolve_input(&self, path: &str) -> (r: Result<AnchoredPath, ResolvePathError>)
        ensures
            match malformed_kind_of(path@) {
                Some(kind) => r matches Err(error) && error@ == path@ && error.spec_kind()
                    == malformed_resolve_kind(kind),
                None => if path_is_absolute(path@) || (!path_has_root(path@) && path_prefix_kind(
                    path@,
                ) is None) {
                    r matches Ok(anchored) && anchored@ == anchored_input(self@, path@)
                } else {
                    match r {
                        Ok(anchored) => anchored@ == anchored_absolute(self@, anchored@.0),
                        Err(error) => error@ == path@ && error.spec_kind() is Native,
                    }
                },
            },
    {
        match classify_path(path.to_owned()) {
            PathClass::Relative(relative) => Ok(self.resolve_relative(relative)),
            PathClass::Absolute(absolute) => Ok(self.resolve_absolute(absolute)),
            PathClass::RootRelative(path) | PathClass::DriveRelative(path) => {
                match AbsUtf8PathBuf::resolve_against_current_dir(path.as_str()) {
                    Ok(absolute) => Ok(self.resolve_absolute(absolute)),
                    Err(error) => Err(error),
                }
            },
            PathClass::Malformed(path, kind) => Err(
                ResolvePathError::new(path, ResolvePathErrorKind::from(kind)),
            ),
        }
    }
}

/// An anchored path: an absolute path, along with a way to display it as a
/// relative path if possible.
///
/// Returned by the `resolve_*` methods on [`PathAnchor`]. Use
/// [`Self::absolute`] for filesystem access and [`Self::display`] for
/// messages.
#[derive(Clone, Debug)]
pub struct AnchoredPath {
    absolute: AbsUtf8PathBuf,
    relative: Option<RelUtf8PathBuf>,
}

impl View for AnchoredPath {
    type V = AnchoredView;

    closed spec fn view(&self) -> AnchoredView {
        (
            self.absolute@,
            match self.relative {
                Some(relative) => Some(relative@),
                None => None,
            },
        )
    }
}

impl AnchoredPath {
    /// Returns the absolute location of this path for filesystem access.
    pub fn absolute(&self) -> (r: &AbsUtf8PathBuf)
        ensures
            r@ == self@.0,
    {
        &self.absolute
    }

    /// Consumes self, returning the absolute path.
    pub fn into_absolute(self) -> (r: AbsUtf8PathBuf)
        ensures
            r@ == self@.0,
    {
        self.absolute
    }

    /// Returns the relative form of this path, if one was retained: always
    /// after [`PathAnchor::resolve_relative`], and after
    /// [`PathAnchor::resolve_absolute`] when stripping the anchor succeeds.
    ///
    /// The path is relative to the anchor it was resolved against, and may
    /// contain `..` components that escape the anchor.
    pub fn relative(&self) -> (r: Option<&RelUtf8PathBuf>)
        ensures
            match r {
                Some(relative) => self@.1 == Some(relative@),
                None => self@.1 is None,
            },
    {
        match &self.relative {
            Some(relative) => Some(relative),
            None => None,
        }
    }

    /// Displays the path relative to its original base when possible.
    pub fn display(&self) -> (r: DisplayPath<'_>)
        ensures
            r@ == display_text(self@),
    {
        match &self.relative {
            Some(relative) => DisplayPath(relative.as_path()),
            None => DisplayPath(self.absolute.as_path()),
        }
    }
}

/// A formatting-only path adapter, returned by [`AnchoredPath::display`].
///
/// It deliberately offers no path view: its text is whichever of the
/// relative or absolute forms was chosen for display.
#[derive(Clone, Copy, Debug)]
pub struct DisplayPath<'a>(&'a str);

impl<'a> View for DisplayPath<'a> {
    type V = Seq<char>;

    closed spec fn view(&self) -> Seq<char> {
        self.0@
    }
}

impl<'a> DisplayPath<'a> {
    /// Returns the text that is displayed.
    pub fn as_str(&self) -> (r: &'a str)
        ensures
            r@ == self@,
    {
        self.0
    }

    /// Returns the text that is displayed, as an owned string.
    pub fn to_string(&self) -> (r: String)
        ensures
            r@ == self@,
    {
        self.0.to_owned()
    }
}

} // verus!
