//! Path text: the spellings that the library reads and keeps, their
//! separators, and the components they name on Unix-like targets.

use vstd::prelude::*;
use vstd::string::*;
use crate::native::{std_is_separator, target_is_separator};

verus! {

// ---------------------------------------------------------------------------
// Spelling
// ---------------------------------------------------------------------------

/// A path separator of the target platform (`/`, and on Windows also `\`).
pub open spec fn is_sep(c: char) -> bool {
    target_is_separator(c)
}

/// The text starts with the root separator.
pub open spec fn is_rooted(s: Seq<char>) -> bool {
    s.len() > 0 && is_sep(s[0])
}

/// The text ends with a separator.
pub open spec fn ends_with_sep(s: Seq<char>) -> bool {
    s.len() > 0 && is_sep(s.last())
}

/// The text holds a NUL character.
pub open spec fn has_nul(s: Seq<char>) -> bool {
    exists|i: int| 0 <= i < s.len() && s[i] == '\0'
}

/// The text with every trailing separator removed.
pub open spec fn trim_trailing_seps(s: Seq<char>) -> Seq<char>
    decreases s.len(),
{
    if ends_with_sep(s) {
        trim_trailing_seps(s.drop_last())
    } else {
        s
    }
}

/// The text with every leading separator removed.
pub open spec fn trim_leading_seps(s: Seq<char>) -> Seq<char>
    decreases s.len(),
{
    if is_rooted(s) {
        trim_leading_seps(s.drop_first())
    } else {
        s
    }
}

/// POSIX names a distinct root by exactly two leading slashes.
pub open spec fn is_double_rooted(s: Seq<char>) -> bool {
    &&& s.len() >= 2
    &&& s[0] == '/'
    &&& s[1] == '/'
    &&& !(s.len() >= 3 && s[2] == '/')
}

/// The text made only of separators (at least one).
pub open spec fn all_seps(s: Seq<char>) -> bool {
    s.len() > 0 && forall|i: int| 0 <= i < s.len() ==> is_sep(#[trigger] s[i])
}

/// Adjoining a relative path onto `base` as Unix targets do: a `/` is
/// inserted unless `base` is empty or already ends with a separator.
pub open spec fn join_text(base: Seq<char>, rel: Seq<char>) -> Seq<char> {
    if base.len() == 0 || ends_with_sep(base) {
        base + rel
    } else {
        base + seq!['/'] + rel
    }
}

/// The text of a well-formed absolute path on Unix targets: not empty, no
/// NUL, rooted.
pub open spec fn is_absolute_text(s: Seq<char>) -> bool {
    s.len() > 0 && !has_nul(s) && is_rooted(s)
}

/// The text of a well-formed relative path on Unix targets: not empty, no
/// NUL, not rooted.
pub open spec fn is_relative_text(s: Seq<char>) -> bool {
    s.len() > 0 && !has_nul(s) && !is_rooted(s)
}

/// The text starts with a `.` component (a `.` followed by a separator or
/// by the end of the text).
pub open spec fn starts_with_cur_dir(s: Seq<char>) -> bool {
    s.len() > 0 && s[0] == '.' && (s.len() == 1 || is_sep(s[1]))
}

/// The text without its leading `.` components, each dropped with the
/// separators after it.
pub open spec fn drop_cur_dirs(s: Seq<char>) -> Seq<char>
    decreases s.len(),
{
    if starts_with_cur_dir(s) {
        proof {
            lemma_trim_leading_split(s.drop_first());
        }
        drop_cur_dirs(trim_leading_seps(s.drop_first()))
    } else {
        s
    }
}

// ---------------------------------------------------------------------------
// Components
// ---------------------------------------------------------------------------

/// Index of the first separator in `s`, or its length if there is none.
pub open spec fn first_sep(s: Seq<char>) -> int
    decreases s.len(),
{
    if s.len() == 0 {
        0
    } else if is_sep(s[0]) {
        0
    } else {
        1 + first_sep(s.drop_first())
    }
}

/// The names between separators, skipping empty names and `.`.
pub open spec fn names(s: Seq<char>) -> Seq<Seq<char>>
    decreases s.len(),
{
    if s.len() == 0 {
        seq![]
    } else if is_sep(s[0]) {
        names(s.drop_first())
    } else {
        let k = first_sep(s);
        if k <= 0 || k > s.len() {
            seq![]
        } else {
            let name = s.take(k);
            let rest = names(s.skip(k));
            if name == seq!['.'] {
                rest
            } else {
                seq![name] + rest
            }
        }
    }
}

/// The name is `.` or `..`.
pub open spec fn is_dot_name(name: Seq<char>) -> bool {
    name == seq!['.'] || name == seq!['.', '.']
}

/// Some component of the text, between separators, is `.` or `..`.
pub open spec fn has_dot_component(s: Seq<char>) -> bool
    decreases s.len(),
{
    if s.len() == 0 {
        false
    } else if is_sep(s[0]) {
        has_dot_component(s.drop_first())
    } else {
        let k = first_sep(s);
        if k <= 0 || k > s.len() {
            false
        } else {
            is_dot_name(s.take(k)) || has_dot_component(s.skip(k))
        }
    }
}

/// The rest of `s` once `k` names are passed over, along with the
/// separators and `.` components on the way: empty, or starting at the next
/// name.
pub open spec fn after_names(s: Seq<char>, k: nat) -> Seq<char>
    decreases s.len(),
{
    if s.len() == 0 {
        s
    } else if is_sep(s[0]) {
        after_names(s.drop_first(), k)
    } else {
        let j = first_sep(s);
        if j <= 0 || j > s.len() {
            s
        } else if s.take(j) == seq!['.'] {
            after_names(s.skip(j), k)
        } else if k == 0 {
            s
        } else {
            after_names(s.skip(j), (k - 1) as nat)
        }
    }
}

/// The components of a path on Unix-like platforms, as documented for
/// `Utf8Path::components`: a root if the text starts with a separator, a
/// leading `.` if a relative text starts with one, then the names between
/// separators, where repeated separators, other `.` components and trailing
/// separators are normalized away.
pub open spec fn unix_components(s: Seq<char>) -> (bool, bool, Seq<Seq<char>>) {
    (is_rooted(s), !is_rooted(s) && starts_with_cur_dir(s), names(s))
}

/// The components of `base` begin the components of `path` (an empty
/// `base` has none).
pub open spec fn components_prefix(base: Seq<char>, path: Seq<char>) -> bool {
    let b = unix_components(base);
    let p = unix_components(path);
    base.len() == 0 || {
        &&& b.0 == p.0
        &&& b.1 == p.1
        &&& b.2.is_prefix_of(p.2)
    }
}

proof fn lemma_first_sep_bounds(s: Seq<char>)
    ensures
        0 <= first_sep(s) <= s.len(),
        forall|i: int| 0 <= i < first_sep(s) ==> !is_sep(#[trigger] s[i]),
        first_sep(s) < s.len() ==> is_sep(s[first_sep(s)]),
    decreases s.len(),
{
    if s.len() > 0 && !is_sep(s[0]) {
        lemma_first_sep_bounds(s.drop_first());
        assert forall|i: int| 0 <= i < first_sep(s) implies !is_sep(#[trigger] s[i]) by {
            if i > 0 {
                assert(s[i] == s.drop_first()[i - 1]);
            }
        }
    }
}

/// `first_sep` is characterized by its bounds.
pub proof fn lemma_first_sep_unique(s: Seq<char>, k: int)
    requires
        0 <= k <= s.len(),
        forall|i: int| 0 <= i < k ==> !is_sep(#[trigger] s[i]),
        k < s.len() ==> is_sep(s[k]),
    ensures
        first_sep(s) == k,
{
    lemma_first_sep_bounds(s);
    let f = first_sep(s);
    if f < k {
        assert(is_sep(s[f]));
        assert(!is_sep(s[f]));
    }
    if k < f {
        assert(!is_sep(s[k]));
    }
}

/// Splitting the text at a separator boundary splits its names.
pub proof fn lemma_names_concat(x: Seq<char>, w: Seq<char>)
    requires
        x.len() == 0 || ends_with_sep(x) || w.len() == 0 || is_sep(w[0]),
    ensures
        names(x + w) == names(x) + names(w),
    decreases x.len(),
{
    if x.len() == 0 {
        assert(x + w =~= w);
        assert(names(x) =~= Seq::<Seq<char>>::empty());
        assert(names(x) + names(w) =~= names(w));
    } else if is_sep(x[0]) {
        assert((x + w).drop_first() =~= x.drop_first() + w);
        lemma_names_concat(x.drop_first(), w);
        assert(names(x + w) == names((x + w).drop_first()));
    } else {
        let xw = x + w;
        lemma_first_sep_bounds(x);
        let k = first_sep(x);
        // the first separator of `x + w` is that of `x`
        if k < x.len() {
            assert forall|i: int| 0 <= i < k implies !is_sep(#[trigger] xw[i]) by {
                assert(xw[i] == x[i]);
            }
            assert(xw[k] == x[k]);
            lemma_first_sep_unique(xw, k);
        } else {
            // no separator in `x`, so the boundary is the end of `x`
            if ends_with_sep(x) {
                assert(is_sep(x[x.len() - 1]));
                assert(false);
            }
            assert forall|i: int| 0 <= i < k implies !is_sep(#[trigger] xw[i]) by {
                assert(xw[i] == x[i]);
            }
            if k < xw.len() {
                assert(xw[k] == w[0]);
            }
            lemma_first_sep_unique(xw, k);
        }
        assert(k > 0) by {
            if k == 0 {
                assert(is_sep(x[0]));
            }
        }
        assert(xw.take(k) =~= x.take(k));
        assert(xw.skip(k) =~= x.skip(k) + w);
        let xs = x.skip(k);
        assert(xs.len() == 0 || ends_with_sep(xs) || w.len() == 0 || is_sep(w[0])) by {
            if xs.len() > 0 && ends_with_sep(x) {
                assert(xs.last() == x.last());
            }
        }
        lemma_names_concat(xs, w);
        if x.take(k) == seq!['.'] {
            assert(names(xw) == names(xw.skip(k)));
            assert(names(x) == names(xs));
        } else {
            assert(names(xw) == seq![x.take(k)] + names(xw.skip(k)));
            assert(names(x) == seq![x.take(k)] + names(xs));
            assert(seq![x.take(k)] + (names(xs) + names(w)) =~= (seq![x.take(k)] + names(xs))
                + names(w));
        }
    }
}

/// A text made only of separators has no names.
pub proof fn lemma_names_of_seps(s: Seq<char>)
    requires
        forall|i: int| 0 <= i < s.len() ==> is_sep(#[trigger] s[i]),
    ensures
        names(s) == Seq::<Seq<char>>::empty(),
    decreases s.len(),
{
    if s.len() > 0 {
        assert(is_sep(s[0]));
        assert forall|i: int| 0 <= i < s.drop_first().len() implies is_sep(
            #[trigger] s.drop_first()[i],
        ) by {
            assert(s.drop_first()[i] == s[i + 1]);
        }
        lemma_names_of_seps(s.drop_first());
    }
}

/// `.` has no names.
pub proof fn lemma_names_of_dot()
    requires
        !is_sep('.'),
    ensures
        names(seq!['.']) == Seq::<Seq<char>>::empty(),
{
    let d = seq!['.'];
    lemma_first_sep_unique(d, 1);
    assert(d.take(1) =~= d);
    assert(d.skip(1) =~= Seq::<char>::empty());
    assert(names(d.skip(1)) =~= Seq::<Seq<char>>::empty());
}

/// A text has no more names than characters.
pub proof fn lemma_names_len(s: Seq<char>)
    ensures
        names(s).len() <= s.len(),
    decreases s.len(),
{
    if s.len() > 0 {
        if is_sep(s[0]) {
            lemma_names_len(s.drop_first());
        } else {
            lemma_first_sep_bounds(s);
            let j = first_sep(s);
            if j > 0 {
                lemma_names_len(s.skip(j));
            }
        }
    }
}

/// Passing over `k` names leaves a trailing part of the text that does not
/// start with a separator, and whose names are those after the first `k`;
/// passing over all the names leaves nothing.
pub proof fn lemma_after_names(s: Seq<char>, k: nat)
    ensures
        after_names(s, k).len() <= s.len(),
        after_names(s, k) == s.skip(s.len() - after_names(s, k).len()),
        !is_rooted(after_names(s, k)),
        k <= names(s).len() ==> names(after_names(s, k)) == names(s).skip(k as int),
        k >= names(s).len() ==> after_names(s, k).len() == 0,
    decreases s.len(),
{
    let a = after_names(s, k);
    if s.len() == 0 {
        assert(s.skip(0) =~= s);
    } else if is_sep(s[0]) {
        let t = s.drop_first();
        lemma_after_names(t, k);
        assert(t.skip(t.len() - a.len()) =~= s.skip(s.len() - a.len()));
    } else {
        lemma_first_sep_bounds(s);
        let j = first_sep(s);
        assert(j > 0) by {
            if j == 0 {
                assert(is_sep(s[0]));
            }
        }
        let t = s.skip(j);
        if s.take(j) == seq!['.'] {
            lemma_after_names(t, k);
            assert(t.skip(t.len() - a.len()) =~= s.skip(s.len() - a.len()));
        } else if k == 0 {
            assert(s.skip(0) =~= s);
            assert(names(s).skip(0) =~= names(s));
        } else {
            let k1 = (k - 1) as nat;
            lemma_after_names(t, k1);
            assert(t.skip(t.len() - a.len()) =~= s.skip(s.len() - a.len()));
            assert(names(s) == seq![s.take(j)] + names(t));
            if k <= names(s).len() {
                assert(names(s).skip(k as int) =~= names(t).skip(k1 as int));
            }
        }
    }
}

/// Passing over names of a text that ends at a separator boundary passes
/// over all of its names first.
pub proof fn lemma_after_names_concat(x: Seq<char>, w: Seq<char>, k: nat)
    requires
        x.len() == 0 || ends_with_sep(x) || w.len() == 0 || is_sep(w[0]),
        k >= names(x).len(),
    ensures
        after_names(x + w, k) == after_names(w, (k - names(x).len()) as nat),
    decreases x.len(),
{
    if x.len() == 0 {
        assert(x + w =~= w);
    } else if is_sep(x[0]) {
        assert((x + w).drop_first() =~= x.drop_first() + w);
        lemma_after_names_concat(x.drop_first(), w, k);
    } else {
        let xw = x + w;
        lemma_first_sep_bounds(x);
        let j = first_sep(x);
        if j < x.len() {
            assert forall|i: int| 0 <= i < j implies !is_sep(#[trigger] xw[i]) by {
                assert(xw[i] == x[i]);
            }
            assert(xw[j] == x[j]);
            lemma_first_sep_unique(xw, j);
        } else {
            if ends_with_sep(x) {
                assert(is_sep(x[x.len() - 1]));
                assert(false);
            }
            assert forall|i: int| 0 <= i < j implies !is_sep(#[trigger] xw[i]) by {
                assert(xw[i] == x[i]);
            }
            if j < xw.len() {
                assert(xw[j] == w[0]);
            }
            lemma_first_sep_unique(xw, j);
        }
        assert(j > 0) by {
            if j == 0 {
                assert(is_sep(x[0]));
            }
        }
        assert(xw.take(j) =~= x.take(j));
        assert(xw.skip(j) =~= x.skip(j) + w);
        let xs = x.skip(j);
        assert(xs.len() == 0 || ends_with_sep(xs) || w.len() == 0 || is_sep(w[0])) by {
            if xs.len() > 0 && ends_with_sep(x) {
                assert(xs.last() == x.last());
            }
        }
        if x.take(j) == seq!['.'] {
            assert(names(x) == names(xs));
            lemma_after_names_concat(xs, w, k);
        } else {
            assert(names(x) == seq![x.take(j)] + names(xs));
            lemma_after_names_concat(xs, w, (k - 1) as nat);
        }
    }
}

/// Passing over no names passes over the leading separators and `.`
/// components only.
pub proof fn lemma_after_no_names(s: Seq<char>)
    ensures
        after_names(s, 0) == drop_cur_dirs(trim_leading_seps(s)),
    decreases s.len(),
{
    if s.len() == 0 {
    } else if is_sep(s[0]) {
        lemma_after_no_names(s.drop_first());
    } else {
        lemma_first_sep_bounds(s);
        let j = first_sep(s);
        assert(j > 0) by {
            if j == 0 {
                assert(is_sep(s[0]));
            }
        }
        if s.take(j) == seq!['.'] {
            assert(j == 1 && s[0] == '.') by {
                assert(s.take(j).len() == 1);
                assert(s.take(j)[0] == s[0]);
            }
            assert(starts_with_cur_dir(s));
            assert(s.skip(1) =~= s.drop_first());
            lemma_after_no_names(s.skip(1));
        } else {
            if starts_with_cur_dir(s) {
                lemma_first_sep_unique(s, 1);
                assert(s.take(1) =~= seq!['.']);
            }
        }
    }
}

/// A text is its leading separators followed by the trimmed form.
pub proof fn lemma_trim_leading_split(s: Seq<char>)
    ensures
        trim_leading_seps(s).len() <= s.len(),
        trim_leading_seps(s) == s.skip(s.len() - trim_leading_seps(s).len()),
        forall|i: int|
            0 <= i < s.len() - trim_leading_seps(s).len() ==> is_sep(#[trigger] s[i]),
        !is_rooted(trim_leading_seps(s)),
    decreases s.len(),
{
    if is_rooted(s) {
        lemma_trim_leading_split(s.drop_first());
        let t = trim_leading_seps(s);
        assert(s.drop_first().skip(s.drop_first().len() - t.len()) =~= s.skip(
            s.len() - t.len(),
        ));
        assert forall|i: int| 0 <= i < s.len() - t.len() implies is_sep(#[trigger] s[i]) by {
            if i > 0 {
                assert(s[i] == s.drop_first()[i - 1]);
            }
        }
    } else {
        assert(s.skip(0) =~= s);
    }
}

/// A text without NUL stays so when joined with another.
pub proof fn lemma_join_no_nul(base: Seq<char>, rel: Seq<char>)
    requires
        !has_nul(base),
        !has_nul(rel),
    ensures
        !has_nul(join_text(base, rel)),
{
    let j = join_text(base, rel);
    assert forall|i: int| 0 <= i < j.len() implies j[i] != '\0' by {
        if i < base.len() {
            assert(j[i] == base[i]);
        } else if base.len() == 0 || ends_with_sep(base) {
            assert(j[i] == rel[i - base.len()]);
        } else if i == base.len() {
            assert(j[i] == '/');
        } else {
            assert(j[i] == rel[i - base.len() - 1]);
        }
    }
}

/// A leading part of a NUL-free text is NUL-free, and so is a trailing part.
pub proof fn lemma_no_nul_parts(s: Seq<char>, k: int)
    requires
        !has_nul(s),
        0 <= k <= s.len(),
    ensures
        !has_nul(s.take(k)),
        !has_nul(s.skip(k)),
{
    assert forall|i: int| 0 <= i < s.take(k).len() implies s.take(k)[i] != '\0' by {
        assert(s.take(k)[i] == s[i]);
    }
    assert forall|i: int| 0 <= i < s.skip(k).len() implies s.skip(k)[i] != '\0' by {
        assert(s.skip(k)[i] == s[i + k]);
    }
}

// ---------------------------------------------------------------------------
// Executable helpers
// ---------------------------------------------------------------------------

/// Whether `c` is a path separator of the target platform.
pub fn is_separator(c: char) -> (r: bool)
    ensures
        r == is_sep(c),
{
    std_is_separator(c)
}

/// Returns `true` if `path` starts with exactly two slashes, the POSIX
/// spelling of a distinct root.
pub fn has_double_root(path: &str) -> (r: bool)
    ensures
        r == is_double_rooted(path@),
{
    let n = path.unicode_len();
    n >= 2 && path.get_char(0) == '/' && path.get_char(1) == '/' && !(n >= 3 && path.get_char(2)
        == '/')
}

/// Returns `path` without its trailing separators.
pub fn trim_trailing_separators(path: &str) -> (r: &str)
    ensures
        r@ == trim_trailing_seps(path@),
{
    let mut end = path.unicode_len();
    assert(path@.subrange(0, end as int) =~= path@);
    while end > 0 && is_separator(path.get_char(end - 1))
        invariant
            end <= path@.len(),
            trim_trailing_seps(path@) == trim_trailing_seps(path@.subrange(0, end as int)),
        decreases end,
    {
        assert(path@.subrange(0, end as int).drop_last() =~= path@.subrange(
            0,
            end - 1 as int,
        ));
        end = end - 1;
    }
    path.substring_char(0, end)
}

/// Whether `path` holds a NUL character.
pub fn contains_nul(path: &str) -> (r: bool)
    ensures
        r == has_nul(path@),
{
    let n = path.unicode_len();
    let mut i: usize = 0;
    while i < n
        invariant
            i <= n,
            n == path@.len(),
            forall|j: int| 0 <= j < i ==> path@[j] != '\0',
        decreases n - i,
    {
        if path.get_char(i) == '\0' {
            return true;
        }
        i = i + 1;
    }
    false
}

/// Whether `path` holds the character `c`.
pub fn contains_char(path: &str, c: char) -> (r: bool)
    ensures
        r == path@.contains(c),
{
    let n = path.unicode_len();
    let mut i: usize = 0;
    while i < n
        invariant
            i <= n,
            n == path@.len(),
            forall|j: int| 0 <= j < i ==> path@[j] != c,
        decreases n - i,
    {
        if path.get_char(i) == c {
            assert(path@[i as int] == c);
            return true;
        }
        i = i + 1;
    }
    false
}

/// The index of the first separator in `path`, or its length if it has
/// none.
fn first_separator(path: &str) -> (r: usize)
    ensures
        r == first_sep(path@),
{
    let n = path.unicode_len();
    let mut i: usize = 0;
    while i < n && !is_separator(path.get_char(i))
        invariant
            i <= n,
            n == path@.len(),
            forall|j: int| 0 <= j < i ==> !is_sep(#[trigger] path@[j]),
        decreases n - i,
    {
        i = i + 1;
    }
    proof {
        lemma_first_sep_unique(path@, i as int);
    }
    i
}

/// Whether some component of `path` is `.` or `..`.
pub fn contains_dot_component(path: &str) -> (r: bool)
    ensures
        r == has_dot_component(path@),
    decreases path@.len(),
{
    let n = path.unicode_len();
    if n == 0 {
        return false;
    }
    if is_separator(path.get_char(0)) {
        let rest = path.substring_char(1, n);
        assert(rest@ =~= path@.drop_first());
        return contains_dot_component(rest);
    }
    let k = first_separator(path);
    proof {
        lemma_first_sep_bounds(path@);
    }
    if k == 0 {
        return false;
    }
    let name = path.substring_char(0, k);
    assert(name@ =~= path@.take(k as int));
    let dot = k == 1 && name.get_char(0) == '.';
    let dot_dot = k == 2 && name.get_char(0) == '.' && name.get_char(1) == '.';
    assert(is_dot_name(name@) <==> dot || dot_dot) by {
        if k == 1 && name@[0] == '.' {
            assert(name@ =~= seq!['.']);
        }
        if k == 2 && name@[0] == '.' && name@[1] == '.' {
            assert(name@ =~= seq!['.', '.']);
        }
    }
    if dot || dot_dot {
        return true;
    }
    let rest = path.substring_char(k, n);
    assert(rest@ =~= path@.skip(k as int));
    contains_dot_component(rest)
}

/// The number of names in `path` (see [`names`]).
pub fn name_count(path: &str) -> (r: usize)
    ensures
        r == names(path@).len(),
    decreases path@.len(),
{
    let n = path.unicode_len();
    if n == 0 {
        return 0;
    }
    if is_separator(path.get_char(0)) {
        let rest = path.substring_char(1, n);
        assert(rest@ =~= path@.drop_first());
        return name_count(rest);
    }
    let k = first_separator(path);
    proof {
        lemma_first_sep_bounds(path@);
    }
    if k == 0 {
        return 0;
    }
    let name = path.substring_char(0, k);
    assert(name@ =~= path@.take(k as int));
    let rest = path.substring_char(k, n);
    assert(rest@ =~= path@.skip(k as int));
    let count = name_count(rest);
    if k == 1 && name.get_char(0) == '.' {
        assert(name@ =~= seq!['.']);
        count
    } else {
        assert(name@ != seq!['.']) by {
            if k == 1 {
                assert(name@[0] != '.');
            } else {
                assert(name@.len() != 1);
            }
        }
        proof {
            lemma_names_len(rest@);
        }
        count + 1
    }
}

/// The rest of `path` once `k` names are passed over, along with the
/// separators and `.` components on the way.
pub fn skip_names(path: &str, k: usize) -> (r: &str)
    ensures
        r@ == after_names(path@, k as nat),
    decreases path@.len(),
{
    let n = path.unicode_len();
    if n == 0 {
        return path;
    }
    if is_separator(path.get_char(0)) {
        let rest = path.substring_char(1, n);
        assert(rest@ =~= path@.drop_first());
        return skip_names(rest, k);
    }
    let j = first_separator(path);
    proof {
        lemma_first_sep_bounds(path@);
    }
    if j == 0 {
        return path;
    }
    let name = path.substring_char(0, j);
    assert(name@ =~= path@.take(j as int));
    let rest = path.substring_char(j, n);
    assert(rest@ =~= path@.skip(j as int));
    if j == 1 && name.get_char(0) == '.' {
        assert(name@ =~= seq!['.']);
        skip_names(rest, k)
    } else {
        assert(name@ != seq!['.']) by {
            if j == 1 {
                assert(name@[0] != '.');
            } else {
                assert(name@.len() != 1);
            }
        }
        if k == 0 {
            path
        } else {
            skip_names(rest, k - 1)
        }
    }
}

} // verus!
