//! UTF-8 paths with explicit resolution and base-relative display.
//!
//! Command-line tools often want to accept and display paths in a principled
//! manner: relative inputs are resolved against an explicit base directory,
//! absolute paths are used internally, and paths are displayed with the
//! spelling the user gave them, relative to a chosen base when they lie
//! within it, and as absolute paths otherwise.
//!
//! * [`AbsUtf8PathBuf`] is an absolute path such as `/home/user`.
//! * [`RelUtf8PathBuf`] is a well-formed relative path such as `foo/bar` or
//!   `../foo`.
//! * [`PathAnchor`] is an absolute directory that turns paths into
//!   [`AnchoredPath`]s, which carry both the absolute location and, when
//!   available, a relative form used for display.
//!
//! What the target platform decides about a path (its separators, whether
//! it is absolute or has a root, its Windows prefix, how joining and
//! equality work) is taken from `camino` and `std::path` as a named result;
//! the library's own logic is stated over those names on every target. On
//! Unix-like targets the names are those of [`native::unix_rules`], and the
//! [`laws`] module states, mostly for such targets, how the operations relate
//! to one another.

pub mod text;
pub mod native;
mod errors;
mod paths;
mod resolution;
pub mod laws;

pub use text::{has_double_root, trim_trailing_separators};
pub use errors::{
    AbsUtf8PathError, AbsUtf8PathErrorKind, CurrentDirError, NativePathErrorKind, RelUtf8PathError,
    RelUtf8PathErrorKind, ResolvePathError, ResolvePathErrorKind, TryFromPathBufError,
};
pub use paths::{choose_logical_current_dir, pwd_text, AbsUtf8PathBuf, RelUtf8PathBuf};
pub use resolution::{AnchoredPath, DisplayPath, PathAnchor};
