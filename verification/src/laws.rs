//! Properties that relate the library's operations to one another, stated
//! over the texts that their contracts speak of.

use vstd::prelude::*;
use vstd::std_specs::cmp::PartialEqSpec;
use crate::errors::{AbsUtf8PathErrorKind, RelUtf8PathErrorKind};
use crate::native::{
    push_adjoins, path_is_absolute, path_join, path_parent, path_prefix_kind, path_prefix_text,
    path_starts_with, paths_equal, unix_rules,
};
use crate::paths::{
    abs_rejection, after_prefix, is_verbatim, rel_rejection, stripped_text, AbsUtf8PathBuf,
    RelUtf8PathBuf,
};
use crate::resolution::{anchored_absolute, anchored_input, anchored_relative, display_text};
use crate::text::{
    after_names, all_seps, components_prefix, drop_cur_dirs, ends_with_sep, has_nul,
    is_absolute_text, is_double_rooted, is_relative_text, is_rooted, is_sep, join_text,
    lemma_after_names, lemma_after_names_concat, lemma_after_no_names, lemma_names_concat,
    lemma_names_of_dot, lemma_no_nul_parts, names, trim_leading_seps, unix_components,
};

verus! {

// ---------------------------------------------------------------------------
// Helpers
// ---------------------------------------------------------------------------

/// The separator that joining inserts between `base` and the relative part.
spec fn join_sep(base: Seq<char>) -> Seq<char> {
    if base.len() == 0 || ends_with_sep(base) {
        seq![]
    } else {
        seq!['/']
    }
}

proof fn lemma_join_shape(base: Seq<char>, rel: Seq<char>)
    ensures
        join_text(base, rel) == base + (join_sep(base) + rel),
{
    assert(join_text(base, rel) =~= base + (join_sep(base) + rel));
}

/// Separators followed by a text that does not start with one trim to
/// that text.
proof fn lemma_trim_leading_of_seps_then(seps: Seq<char>, t: Seq<char>)
    requires
        forall|i: int| 0 <= i < seps.len() ==> is_sep(#[trigger] seps[i]),
        !is_rooted(t),
    ensures
        trim_leading_seps(seps + t) == t,
    decreases seps.len(),
{
    if seps.len() == 0 {
        assert(seps + t =~= t);
    } else {
        assert((seps + t).drop_first() =~= seps.drop_first() + t);
        assert(is_sep(seps[0]));
        assert forall|i: int| 0 <= i < seps.drop_first().len() implies is_sep(
            #[trigger] seps.drop_first()[i],
        ) by {
            assert(seps.drop_first()[i] == seps[i + 1]);
        }
        lemma_trim_leading_of_seps_then(seps.drop_first(), t);
    }
}

/// Joining a text that does not start with a separator keeps the double
/// root of a rooted base.
proof fn lemma_join_double_root(base: Seq<char>, t: Seq<char>)
    requires
        unix_rules(),
        is_rooted(base),
        t.len() > 0,
        !is_rooted(t),
    ensures
        is_double_rooted(join_text(base, t)) == is_double_rooted(base),
{
    let j = join_text(base, t);
    if base.len() >= 3 {
        assert(j[0] == base[0] && j[1] == base[1] && j[2] == base[2]);
    } else if base.len() == 2 {
        assert(j[0] == base[0] && j[1] == base[1]);
        if ends_with_sep(base) {
            assert(j[2] == t[0]);
        } else {
            assert(!is_sep(base[1]));
        }
    } else {
        assert(ends_with_sep(base));
        assert(j[0] == base[0]);
        assert(j[1] == t[0]);
    }
}

/// The names of a joined path are those of the base, then those of the
/// relative part.
proof fn lemma_join_names(base: Seq<char>, t: Seq<char>)
    requires
        unix_rules(),
        !is_rooted(t),
    ensures
        names(join_text(base, t)) == names(base) + names(t),
{
    lemma_join_shape(base, t);
    let w = join_sep(base) + t;
    lemma_names_concat(base, w);
    if join_sep(base).len() > 0 {
        assert(w.drop_first() =~= t);
        assert(names(w) == names(t));
    } else {
        assert(w =~= t);
    }
}

/// On Unix-like targets, a NUL-free remainder that does not start with a
/// separator is a well-formed relative path once an empty one is read as
/// `.`.
proof fn lemma_remainder_is_relative(rest: Seq<char>)
    requires
        unix_rules(),
        !has_nul(rest),
        !is_rooted(rest),
    ensures
        rel_rejection(if rest.len() == 0 {
            seq!['.']
        } else {
            rest
        }) is None,
{
    let dot = seq!['.'];
    assert(!has_nul(dot)) by {
        assert forall|i: int| 0 <= i < dot.len() implies dot[i] != '\0' by {}
    }
    assert(!is_sep('.'));
    let t = if rest.len() == 0 {
        dot
    } else {
        rest
    };
    assert(!is_rooted(t));
    assert(!path_is_absolute(t));
    assert(!crate::native::path_has_root(t));
    assert(crate::native::path_prefix_kind(t) is None);
}

/// A relative path with its leading `.` components dropped, or `.` if
/// nothing is left: what stripping a base from the base joined with it
/// gives.
pub open spec fn without_leading_cur_dirs(relative: Seq<char>) -> Seq<char> {
    let rest = drop_cur_dirs(relative);
    if rest.len() == 0 {
        seq!['.']
    } else {
        rest
    }
}

// ---------------------------------------------------------------------------
// Constructors
// ---------------------------------------------------------------------------

/// No text is accepted both as an absolute and as a relative path, and each
/// constructor names the other kind when it rejects a text that the other
/// accepts. On Unix-like targets, a text that is neither empty nor holds a
/// NUL is accepted by exactly one of them: as absolute exactly when it
/// starts with `/`.
pub proof fn law_constructors_are_exclusive(s: Seq<char>)
    ensures
        !(abs_rejection(s) is None && rel_rejection(s) is None),
        abs_rejection(s) is None ==> rel_rejection(s) == Some(RelUtf8PathErrorKind::Absolute),
        rel_rejection(s) is None ==> abs_rejection(s) == Some(AbsUtf8PathErrorKind::NotAbsolute),
        unix_rules() ==> {
            &&& s.len() > 0 && !has_nul(s) ==> (abs_rejection(s) is None) != (rel_rejection(
                s,
            ) is None)
            &&& abs_rejection(s) is None <==> is_absolute_text(s)
            &&& rel_rejection(s) is None <==> is_relative_text(s)
        },
{
    if unix_rules() {
        assert(path_is_absolute(s) <==> is_rooted(s));
        assert(crate::native::path_has_root(s) <==> is_rooted(s));
        assert(crate::native::path_prefix_kind(s) is None);
    }
}

// ---------------------------------------------------------------------------
// Stripping and joining
// ---------------------------------------------------------------------------

/// On Unix-like targets, joining a relative path onto an absolute one
/// cannot replace the root: the result starts with the base as spelled, and
/// is a well-formed absolute path.
pub proof fn law_join_keeps_base(base: Seq<char>, relative: Seq<char>)
    requires
        unix_rules(),
        abs_rejection(base) is None,
        rel_rejection(relative) is None,
    ensures
        base.is_prefix_of(path_join(base, relative)),
        abs_rejection(path_join(base, relative)) is None,
        push_adjoins(base, relative),
{
    assert(is_rooted(base) && !is_rooted(relative));
    assert(path_join(base, relative) == join_text(base, relative));
    let joined = join_text(base, relative);
    assert(joined.subrange(0, base.len() as int) =~= base);
    crate::text::lemma_join_no_nul(base, relative);
    assert(is_rooted(joined));
    assert(path_is_absolute(joined));
    assert(is_sep('/') && !is_sep('.'));
    assert(path_prefix_kind(base) is None && path_prefix_kind(joined) is None);
    assert(path_prefix_text(base) is None && path_prefix_text(joined) is None);
    lemma_join_shape(base, relative);
    let w = join_sep(base);
    assert(base + (w + relative) =~= base + w + relative);
    lemma_unix_join_remainder(base, w, relative);
    assert(path_starts_with(joined, base));
    if !ends_with_sep(base) {
        assert(joined == base + seq!['/'] + relative);
    } else {
        assert(joined =~= base + relative);
    }
}

/// On Unix targets, the remainder after `base` in `path`: the text after
/// as many names as `base` has, or `.` if nothing is left.
spec fn unix_remainder(path: Seq<char>, base: Seq<char>) -> Seq<char> {
    let rest = after_names(path, names(base).len());
    if rest.len() == 0 {
        seq!['.']
    } else {
        rest
    }
}

/// On Unix targets, stripping succeeds exactly when the components of
/// `base` begin those of `path` and the two agree on the double root, and
/// gives the remainder after the names of `base`.
proof fn lemma_unix_stripped(path: Seq<char>, base: Seq<char>)
    requires
        unix_rules(),
        !has_nul(path),
    ensures
        stripped_text(path, base) == if components_prefix(base, path) && is_double_rooted(path)
            == is_double_rooted(base) {
            Some(unix_remainder(path, base))
        } else {
            None
        },
{
    assert(path_starts_with(path, base) <==> components_prefix(base, path));
    assert(path_prefix_text(path) is None && path_prefix_text(base) is None);
    assert(after_prefix(path) == path && after_prefix(base) == base);
    assert(path_prefix_kind(path) is None);
    let k = names(base).len();
    lemma_after_names(path, k);
    let rest = after_names(path, k);
    lemma_no_nul_parts(path, path.len() - rest.len());
    lemma_remainder_is_relative(rest);
}

/// Joining onto a base gives a path whose components begin with the base's,
/// that agrees with it on the double root, and whose remainder after the
/// base's names is the joined text without its leading `.` components.
proof fn lemma_unix_join_remainder(base: Seq<char>, w: Seq<char>, relative: Seq<char>)
    requires
        unix_rules(),
        is_rooted(base),
        !is_rooted(relative),
        all_seps(w) || (w.len() == 0 && ends_with_sep(base)),
    ensures
        names(base + w + relative) == names(base) + names(relative),
        components_prefix(base, base + w + relative),
        after_names(base + w + relative, names(base).len()) == drop_cur_dirs(relative),
{
    let path = base + w + relative;
    let tail = w + relative;
    assert(path =~= base + tail);
    assert(tail.len() == 0 || is_sep(tail[0]) || ends_with_sep(base)) by {
        if w.len() > 0 {
            assert(tail[0] == w[0]);
        }
    }
    lemma_names_concat(base, tail);
    assert forall|i: int| 0 <= i < w.len() implies is_sep(#[trigger] w[i]) by {}
    lemma_names_concat(w, relative);
    crate::text::lemma_names_of_seps(w);
    assert(names(w) + names(relative) =~= names(relative));
    assert(is_rooted(path)) by {
        assert(path[0] == base[0]);
    }
    assert(names(base).is_prefix_of(names(path))) by {
        assert(names(path).subrange(0, names(base).len() as int) =~= names(base));
    }
    lemma_after_names_concat(base, tail, names(base).len());
    assert((names(base).len() - names(base).len()) as nat == 0nat);
    lemma_after_no_names(tail);
    lemma_trim_leading_of_seps_then(w, relative);
}

/// On Unix targets, stripping a base from the base joined with a relative
/// path gives back that relative path as it was spelled, except that its
/// leading `.` components are dropped (`.` if nothing is left).
pub proof fn law_strip_prefix_inverts_join(base: Seq<char>, relative: Seq<char>)
    requires
        unix_rules(),
        abs_rejection(base) is None,
        rel_rejection(relative) is None,
    ensures
        stripped_text(path_join(base, relative), base) == Some(without_leading_cur_dirs(relative)),
{
    assert(is_rooted(base) && !is_rooted(relative));
    assert(path_join(base, relative) == join_text(base, relative));
    lemma_join_shape(base, relative);
    let w = join_sep(base);
    assert(base + (w + relative) =~= base + w + relative);
    let joined = base + w + relative;
    assert(is_sep('/'));
    lemma_unix_join_remainder(base, w, relative);
    lemma_join_double_root(base, relative);
    crate::text::lemma_join_no_nul(base, relative);
    lemma_unix_stripped(joined, base);
}

/// On Unix targets, all the separators between a base and the rest of a
/// path are dropped, and so are the leading `.` components of the rest,
/// unless the separators turn a single root into the POSIX double root or
/// back, in which case the path is displayed as absolute.
pub proof fn law_strip_prefix_drops_separators_after_base(
    base: Seq<char>,
    separators: Seq<char>,
    relative: Seq<char>,
)
    requires
        unix_rules(),
        abs_rejection(base) is None,
        all_seps(separators),
        rel_rejection(relative) is None,
    ensures
        stripped_text(base + separators + relative, base) == if is_double_rooted(
            base + separators + relative,
        ) == is_double_rooted(base) {
            Some(without_leading_cur_dirs(relative))
        } else {
            None
        },
{
    let path = base + separators + relative;
    assert(is_rooted(base) && !is_rooted(relative));
    lemma_unix_join_remainder(base, separators, relative);
    assert(!has_nul(path)) by {
        assert forall|i: int| 0 <= i < path.len() implies path[i] != '\0' by {
            if i < base.len() {
                assert(path[i] == base[i]);
            } else if i < base.len() + separators.len() {
                assert(path[i] == separators[i - base.len()]);
                assert(is_sep(separators[i - base.len()]));
                if separators[i - base.len()] == '\0' {
                    assert(is_sep('\0'));
                }
            } else {
                assert(path[i] == relative[i - base.len() - separators.len()]);
            }
        }
    }
    lemma_unix_stripped(path, base);
}

/// On Unix targets, how a base is spelled does not matter: two bases that
/// are equal as paths and agree on the POSIX double root (such as `/repo`,
/// `/repo//` and `/repo/.`) strip any path alike.
pub proof fn law_strip_prefix_ignores_base_spelling(
    path: Seq<char>,
    base: Seq<char>,
    respelled: Seq<char>,
)
    requires
        unix_rules(),
        abs_rejection(path) is None,
        abs_rejection(base) is None,
        abs_rejection(respelled) is None,
        paths_equal(base, respelled),
        is_double_rooted(base) == is_double_rooted(respelled),
    ensures
        stripped_text(path, base) == stripped_text(path, respelled),
{
    assert(unix_components(base) == unix_components(respelled));
    lemma_unix_stripped(path, base);
    lemma_unix_stripped(path, respelled);
}

/// On Unix targets, when stripping a base succeeds, joining the result
/// back onto the base names the same path: the two compare equal, agree on
/// the POSIX double root, and the remainder is a well-formed relative path.
/// Unless the remainder is `.`, the original path ends with it.
pub proof fn law_strip_prefix_then_join_names_same_path(path: Seq<char>, base: Seq<char>)
    requires
        unix_rules(),
        abs_rejection(path) is None,
        abs_rejection(base) is None,
        stripped_text(path, base) is Some,
    ensures
        ({
            let relative = stripped_text(path, base)->0;
            let rejoined = path_join(base, relative);
            &&& rel_rejection(relative) is None
            &&& paths_equal(rejoined, path)
            &&& is_double_rooted(rejoined) == is_double_rooted(path)
            &&& relative != seq!['.'] ==> relative.is_suffix_of(path)
        }),
{
    let relative = stripped_text(path, base)->0;
    let dot = seq!['.'];
    assert(is_rooted(path) && is_rooted(base));
    lemma_unix_stripped(path, base);
    assert(components_prefix(base, path));
    assert(!crate::native::path_has_root(relative));
    assert(!is_rooted(relative));
    assert(path_join(base, relative) == join_text(base, relative));
    let rejoined = join_text(base, relative);
    lemma_join_names(base, relative);
    lemma_join_double_root(base, relative);
    assert(is_rooted(rejoined));
    assert(!is_sep('.'));
    lemma_names_of_dot();
    let k = names(base).len();
    lemma_after_names(path, k);
    let rest = after_names(path, k);
    assert(names(base).is_prefix_of(names(path)));
    assert(names(rest) == names(path).skip(k as int));
    if rest.len() == 0 {
        assert(relative == dot);
        assert(names(rest) =~= Seq::<Seq<char>>::empty());
    } else {
        assert(relative == rest);
        assert(rest =~= path.subrange(path.len() - rest.len(), path.len() as int));
        assert(relative.is_suffix_of(path));
    }
    assert(names(rejoined) =~= names(path));
    assert(unix_components(rejoined) == unix_components(path));
    assert(paths_equal(rejoined, path));
}

/// On Unix targets, a path stripped of itself is `.`; so is a path stripped
/// of any base equal to it as a path (such as `/repo/` or `/repo/.` for
/// `/repo`), as long as the two agree on the POSIX double root.
pub proof fn law_strip_prefix_of_equal_base_is_dot(path: Seq<char>, base: Seq<char>)
    requires
        unix_rules(),
        abs_rejection(path) is None,
        abs_rejection(base) is None,
        paths_equal(path, base),
        is_double_rooted(path) == is_double_rooted(base),
    ensures
        stripped_text(path, base) == Some(seq!['.']),
        stripped_text(path, path) == Some(seq!['.']),
{
    assert(unix_components(path) == unix_components(base));
    assert(names(path).is_prefix_of(names(path)));
    lemma_after_names(path, names(path).len());
    lemma_unix_stripped(path, base);
    lemma_unix_stripped(path, path);
}

/// Appending a separator or nothing, then a text that does not start with
/// a separator, keeps whether a path names the POSIX double root.
proof fn lemma_adjoin_double_root(base: Seq<char>, sep: Seq<char>, rel: Seq<char>)
    requires
        is_sep('/'),
        base.len() > 0,
        !is_rooted(rel),
        (sep.len() == 0 && ends_with_sep(base)) || (sep.len() == 1 && is_sep(sep[0])
            && !ends_with_sep(base)),
    ensures
        is_double_rooted(base + sep + rel) == is_double_rooted(base),
{
    let j = base + sep + rel;
    assert(j[0] == base[0]);
    if base.len() >= 3 {
        assert(j[1] == base[1] && j[2] == base[2]);
    } else if base.len() == 2 {
        assert(j[1] == base[1]);
        if sep.len() == 0 {
            if j.len() > 2 {
                assert(j[2] == rel[0]);
            }
        } else {
            assert(base[1] != '/');
        }
    } else {
        if sep.len() == 0 {
            if j.len() > 1 {
                assert(j[1] == rel[0]);
            }
        } else {
            assert(base[0] != '/');
        }
    }
}

/// On every target, stripping a base (not a Windows verbatim path) from the
/// base joined with a relative path gives back that relative path as it was
/// spelled, except that its leading `.` components are dropped (`.` if
/// nothing is left); the result is refused only when what is left is not a
/// well-formed relative path (on Windows, `.\C:a` leaves the drive-relative
/// `C:a`). The premise is what `PathBuf::push` documents for the join.
pub proof fn law_strip_prefix_inverts_join_on_every_target(base: Seq<char>, relative: Seq<char>)
    requires
        abs_rejection(base) is None,
        rel_rejection(relative) is None,
        push_adjoins(base, relative),
    ensures
        stripped_text(path_join(base, relative), base) == if rel_rejection(
            without_leading_cur_dirs(relative),
        ) is None {
            Some(without_leading_cur_dirs(relative))
        } else {
            None
        },
{
    let joined = path_join(base, relative);
    let sep: Seq<char> = if ends_with_sep(base) {
        seq![]
    } else {
        let c = choose|c: char| is_sep(c) && joined == base + seq![c] + relative;
        seq![c]
    };
    assert(joined =~= base + sep + relative);
    lemma_adjoin_double_root(base, sep, relative);
    assert(!is_verbatim(path_prefix_kind(joined)));
    let x = after_prefix(base);
    let w = sep + relative;
    assert(after_prefix(joined) =~= x + w) by {
        match path_prefix_text(base) {
            Some(prefix) => {
                assert(prefix.is_prefix_of(base));
                assert(joined.skip(prefix.len() as int) =~= base.skip(prefix.len() as int) + w);
            },
            None => {
                assert(joined =~= base + w);
            },
        }
    }
    assert(x.len() == 0 || ends_with_sep(x) || w.len() == 0 || is_sep(w[0])) by {
        if sep.len() == 0 && x.len() > 0 {
            assert(x.last() == base.last());
        }
        if sep.len() > 0 {
            assert(w[0] == sep[0]);
        }
    }
    lemma_after_names_concat(x, w, names(x).len());
    assert((names(x).len() - names(x).len()) as nat == 0nat);
    lemma_after_no_names(w);
    assert forall|i: int| 0 <= i < sep.len() implies is_sep(#[trigger] sep[i]) by {}
    lemma_trim_leading_of_seps_then(sep, relative);
}

// ---------------------------------------------------------------------------
// Equality
// ---------------------------------------------------------------------------

/// On Unix targets, two absolute paths are equal (`==`) exactly when they
/// have the same components: a root, then the same names, ignoring repeated
/// separators, `.` components and trailing separators. In particular a
/// path never equals one with more names.
pub proof fn law_absolute_paths_equal_by_components(a: AbsUtf8PathBuf, b: AbsUtf8PathBuf)
    requires
        unix_rules(),
    ensures
        a.eq_spec(&b) <==> unix_components(a@) == unix_components(b@),
        a.eq_spec(&b) ==> names(a@) == names(b@),
        names(a@).len() != names(b@).len() ==> !a.eq_spec(&b),
{
}

/// On Unix targets, two relative paths are equal (`==`) exactly when they
/// have the same components: whether they start with a `.` component, then
/// the same names, ignoring repeated separators, other `.` components and
/// trailing separators. In particular a path never equals one with more
/// names.
pub proof fn law_relative_paths_equal_by_components(a: RelUtf8PathBuf, b: RelUtf8PathBuf)
    requires
        unix_rules(),
    ensures
        a.eq_spec(&b) <==> unix_components(a@) == unix_components(b@),
        a.eq_spec(&b) ==> names(a@) == names(b@),
        names(a@).len() != names(b@).len() ==> !a.eq_spec(&b),
{
}

// ---------------------------------------------------------------------------
// Parents
// ---------------------------------------------------------------------------

/// `..` has one name, itself.
proof fn lemma_names_of_dot_dot()
    requires
        unix_rules(),
    ensures
        names(seq!['.', '.']) == seq![seq!['.', '.']],
{
    let d = seq!['.', '.'];
    assert(!is_sep('.'));
    crate::text::lemma_first_sep_unique(d, 2);
    assert(d.take(2) =~= d);
    assert(d.skip(2) =~= Seq::<char>::empty());
    assert(names(d.skip(2)) =~= Seq::<Seq<char>>::empty());
    assert(d != seq!['.']) by {
        assert(d.len() != seq!['.'].len());
    }
    assert(names(d) =~= seq![d]);
}

/// On Unix targets, parents are computed from the text: the parent of a
/// path joined with `..` compares equal to the path itself (the `..` is
/// removed, not resolved), and a path that names no component below the
/// root has no parent.
pub proof fn law_parent_removes_parent_component_textually(path: Seq<char>)
    requires
        unix_rules(),
        abs_rejection(path) is None,
    ensures
        path_parent(path_join(path, seq!['.', '.'])) matches Some(parent) && paths_equal(
            parent,
            path,
        ),
        names(path).len() == 0 <==> path_parent(path) is None,
{
    let d = seq!['.', '.'];
    assert(is_rooted(path));
    assert(!is_sep('.'));
    assert(!is_rooted(d));
    assert(path_join(path, d) == join_text(path, d));
    let joined = join_text(path, d);
    lemma_join_names(path, d);
    lemma_names_of_dot_dot();
    assert(names(joined) == names(path) + seq![d]);
    lemma_join_shape(path, d);
    assert(is_rooted(joined)) by {
        assert(joined[0] == path[0]);
    }
    assert(path_parent(joined) is Some);
    let parent = path_parent(joined)->0;
    assert(names(parent) == names(joined).drop_last());
    assert(names(joined).drop_last() =~= names(path));
    assert(is_rooted(parent));
    assert(unix_components(parent) == unix_components(path));
    assert(paths_equal(parent, path));
    assert(path_parent(path) is Some <==> names(path).len() > 0);
}

// ---------------------------------------------------------------------------
// Resolution and display
// ---------------------------------------------------------------------------

/// Resolving an input is resolving it as a relative path when
/// `RelUtf8PathBuf::new` accepts it, and as an absolute path when that
/// rejects it as absolute.
pub proof fn law_resolve_input_matches_relative_or_absolute(base: Seq<char>, input: Seq<char>)
    ensures
        rel_rejection(input) is None ==> anchored_input(base, input) == anchored_relative(
            base,
            input,
        ),
        rel_rejection(input) == Some(RelUtf8PathErrorKind::Absolute) ==> anchored_input(base, input)
            == anchored_absolute(base, input) && abs_rejection(input) is None,
{
}

/// A relative path resolved against a base is displayed exactly as it was
/// spelled, and located at the base joined with it (on Unix targets, the
/// base, a `/` unless the base ends with one, and the path as spelled); an
/// absolute path is displayed as its stripped form when there is one, and
/// as itself otherwise.
pub proof fn law_display_preserves_spelling(base: Seq<char>, path: Seq<char>)
    ensures
        display_text(anchored_relative(base, path)) == path,
        anchored_relative(base, path).0 == path_join(base, path),
        unix_rules() && rel_rejection(path) is None ==> anchored_relative(base, path).0
            == join_text(base, path),
        display_text(anchored_absolute(base, path)) == match stripped_text(path, base) {
            Some(relative) => relative,
            None => path,
        },
        anchored_absolute(base, path).0 == path,
{
    if unix_rules() && rel_rejection(path) is None {
        assert(!is_rooted(path));
    }
}

} // verus!
