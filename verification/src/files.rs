//! The compute side of file discovery for the picker: deciding which paths
//! are text files, ordering them, and filtering them case-insensitively by a
//! typed substring. Walking the file system happens outside the library; it
//! hands in plain path strings.

use vstd::prelude::*;

use crate::engine::SpeedReader;
use crate::text::{lower_of, lowercase};

verus! {

/// Whether `needle` occurs contiguously somewhere in `hay`.
pub open spec fn has_substring(hay: Seq<char>, needle: Seq<char>) -> bool {
    exists|i: int|
        #![trigger hay.subrange(i, i + needle.len())]
        0 <= i && i + needle.len() <= hay.len() && hay.subrange(i, i + needle.len()) == needle
}

/// Whether the path `f` stays in the list under `filter`: its lowercased text
/// contains the lowercased filter.
pub open spec fn matches_filter(f: String, filter: Seq<char>) -> bool {
    has_substring(lower_of(f@), lower_of(filter))
}

/// Code-point order on strings: `a` comes no later than `b`
/// lexicographically.
pub open spec fn lex_le(a: Seq<char>, b: Seq<char>) -> bool
    decreases a.len(),
{
    if a.len() == 0 {
        true
    } else if b.len() == 0 {
        false
    } else if a[0] == b[0] {
        lex_le(a.drop_first(), b.drop_first())
    } else {
        a[0] < b[0]
    }
}

/// The sequence of paths is in lexicographic order.
pub open spec fn paths_sorted(s: Seq<String>) -> bool {
    forall|i: int, j: int| 0 <= i < j < s.len() ==> lex_le(#[trigger] s[i]@, #[trigger] s[j]@)
}

/// Index where the final path component of `p` begins, scanning the first
/// `i` characters: one past the last separator, or zero when there is none.
pub open spec fn basename_start(p: Seq<char>, i: int) -> int
    decreases i,
{
    if i <= 0 {
        0
    } else if p[i - 1] == '/' {
        i
    } else {
        basename_start(p, i - 1)
    }
}

/// The final path component of `p`.
pub open spec fn basename_of(p: Seq<char>) -> Seq<char> {
    p.subrange(basename_start(p, p.len() as int), p.len() as int)
}

/// Position of the last `.` among the first `i` characters of a file name,
/// or -1 when there is none.
pub open spec fn last_dot_pos(b: Seq<char>, i: int) -> int
    decreases i,
{
    if i <= 0 {
        -1
    } else if b[i - 1] == '.' {
        i - 1
    } else {
        last_dot_pos(b, i - 1)
    }
}

/// The extension of the path `p`: the part of its final component after the
/// last dot, provided that dot is not the component's first character.
/// A component without a dot, or whose only dot leads it, has none.
pub open spec fn ext_of(p: Seq<char>) -> Option<Seq<char>> {
    let b = basename_of(p);
    let d = last_dot_pos(b, b.len() as int);
    if d > 0 {
        Some(b.subrange(d + 1, b.len() as int))
    } else {
        None
    }
}

/// Whether `p` names a text file: its extension, lowercased, is one of the
/// accepted plain-text extensions.
pub open spec fn is_text_path_spec(p: Seq<char>) -> bool {
    match ext_of(p) {
        Some(e) => {
            let l = lower_of(e);
            l == "txt"@ || l == "md"@ || l == "rst"@ || l == "log"@ || l == "text"@
        },
        None => false,
    }
}

/// Whether `needle` matches `hay` starting at position `at`.
fn match_at(hay: &str, needle: &str, at: usize) -> (r: bool)
    requires
        at + needle@.len() <= hay@.len(),
    ensures
        r == (hay@.subrange(at as int, at as int + needle@.len() as int) == needle@),
{
    let hl: usize = hay.unicode_len();
    let nl: usize = needle.unicode_len();
    let ghost want = hay@.subrange(at as int, at as int + needle@.len() as int);
    let mut j: usize = 0;
    while j < nl
        invariant
            j <= nl,
            nl == needle@.len(),
            hl == hay@.len(),
            at + nl <= hl,
            want == hay@.subrange(at as int, at as int + nl as int),
            forall|m: int| 0 <= m < j ==> want[m] == needle@[m],
        decreases nl - j,
    {
        let ch = hay.get_char(at + j);
        let cn = needle.get_char(j);
        assert(want[j as int] == ch);
        if ch != cn {
            assert(want != needle@);
            return false;
        }
        j = j + 1;
    }
    proof {
        assert(want =~= needle@);
    }
    true
}

/// Whether the text `needle` occurs contiguously in `hay`.
pub fn contains_sub(hay: &str, needle: &str) -> (r: bool)
    ensures
        r == has_substring(hay@, needle@),
{
    let hl: usize = hay.unicode_len();
    let nl: usize = needle.unicode_len();
    if nl > hl {
        return false;
    }
    let mut i: usize = 0;
    loop
        invariant
            nl <= hl,
            hl == hay@.len(),
            nl == needle@.len(),
            i <= hl - nl,
            forall|k: int|
                0 <= k < i ==> #[trigger] hay@.subrange(k, k + needle@.len()) != needle@,
        decreases hl - nl - i,
    {
        if match_at(hay, needle, i) {
            return true;
        }
        if i == hl - nl {
            return false;
        }
        i = i + 1;
    }
}

/// Prefix-equal strings compare by what follows the common prefix.
proof fn lemma_lex_le_skip(a: Seq<char>, b: Seq<char>, i: int)
    requires
        0 <= i <= a.len(),
        i <= b.len(),
        forall|k: int| 0 <= k < i ==> a[k] == b[k],
    ensures
        lex_le(a, b) == lex_le(a.skip(i), b.skip(i)),
    decreases i,
{
    if i > 0 {
        lemma_lex_le_skip(a, b, i - 1);
        let sa = a.skip(i - 1);
        let sb = b.skip(i - 1);
        assert(sa[0] == a[i - 1]);
        assert(sb[0] == b[i - 1]);
        assert(sa.drop_first() =~= a.skip(i));
        assert(sb.drop_first() =~= b.skip(i));
    } else {
        assert(a.skip(0) =~= a);
        assert(b.skip(0) =~= b);
    }
}

/// Any two strings are comparable: lexicographic order is total.
pub proof fn lemma_lex_le_total(a: Seq<char>, b: Seq<char>)
    ensures
        lex_le(a, b) || lex_le(b, a),
    decreases a.len(),
{
    if a.len() > 0 && b.len() > 0 && a[0] == b[0] {
        lemma_lex_le_total(a.drop_first(), b.drop_first());
    }
}

/// Lexicographic order is transitive.
pub proof fn lemma_lex_le_trans(a: Seq<char>, b: Seq<char>, c: Seq<char>)
    requires
        lex_le(a, b),
        lex_le(b, c),
    ensures
        lex_le(a, c),
    decreases a.len(),
{
    if a.len() > 0 && b.len() > 0 && c.len() > 0 && a[0] == b[0] && b[0] == c[0] {
        lemma_lex_le_trans(a.drop_first(), b.drop_first(), c.drop_first());
    }
}

/// Whether `a` comes no later than `b` in code-point order.
pub fn str_lex_le(a: &str, b: &str) -> (r: bool)
    ensures
        r == lex_le(a@, b@),
{
    let la: usize = a.unicode_len();
    let lb: usize = b.unicode_len();
    let mut i: usize = 0;
    loop
        invariant
            la == a@.len(),
            lb == b@.len(),
            i <= la,
            i <= lb,
            forall|k: int| 0 <= k < i ==> a@[k] == b@[k],
        decreases la - i,
    {
        if i >= la {
            proof {
                lemma_lex_le_skip(a@, b@, i as int);
                assert(a@.skip(i as int).len() == 0);
            }
            return true;
        }
        if i >= lb {
            proof {
                lemma_lex_le_skip(a@, b@, i as int);
                assert(b@.skip(i as int).len() == 0);
                assert(a@.skip(i as int).len() > 0);
            }
            return false;
        }
        let ca = a.get_char(i);
        let cb = b.get_char(i);
        if ca != cb {
            proof {
                lemma_lex_le_skip(a@, b@, i as int);
                assert(a@.skip(i as int)[0] == ca);
                assert(b@.skip(i as int)[0] == cb);
            }
            return ca < cb;
        }
        i = i + 1;
    }
}

/// Sort the paths into lexicographic order; the result holds exactly the
/// given paths.
pub fn sort_paths(paths: Vec<String>) -> (r: Vec<String>)
    ensures
        r@.to_multiset() == paths@.to_multiset(),
        paths_sorted(r@),
{
    broadcast use vstd::seq_lib::group_to_multiset_ensures;

    let mut r: Vec<String> = Vec::new();
    let mut i: usize = 0;
    proof {
        assert(r@ =~= paths@.take(0));
    }
    while i < paths.len()
        invariant
            i <= paths@.len(),
            r@.to_multiset() == paths@.take(i as int).to_multiset(),
            paths_sorted(r@),
        decreases paths@.len() - i,
    {
        let x = paths[i].clone();
        let mut j: usize = 0;
        while j < r.len() && str_lex_le(r[j].as_str(), x.as_str())
            invariant
                j <= r@.len(),
                forall|k: int| 0 <= k < j ==> lex_le(#[trigger] r@[k]@, x@),
            decreases r@.len() - j,
        {
            j = j + 1;
        }
        proof {
            if j < r@.len() {
                lemma_lex_le_total(r@[j as int]@, x@);
                assert(lex_le(x@, r@[j as int]@));
            }
        }
        let ghost old_r = r@;
        r.insert(j, x);
        proof {
            assert(r@ == old_r.insert(j as int, x));
            lemma_insert_to_multiset(old_r, j as int, x);
            assert(paths@.take(i as int + 1) =~= paths@.take(i as int).push(paths@[i as int]));
            vstd::seq_lib::to_multiset_build(paths@.take(i as int), paths@[i as int]);
            assert(paths@.take(i as int).push(paths@[i as int]).to_multiset() =~= paths@.take(
                i as int,
            ).to_multiset().insert(paths@[i as int]));
            assert(r@.to_multiset() =~= paths@.take(i as int + 1).to_multiset());
            assert forall|u: int, v: int| 0 <= u < v < r@.len() implies lex_le(
                #[trigger] r@[u]@,
                #[trigger] r@[v]@,
            ) by {
                if v < j {
                    assert(r@[u] == old_r[u] && r@[v] == old_r[v]);
                } else if u < j && v == j {
                    assert(r@[u] == old_r[u]);
                } else if u < j && v > j {
                    assert(r@[u] == old_r[u] && r@[v] == old_r[v - 1]);
                } else if u == j {
                    assert(r@[v] == old_r[v - 1]);
                    assert(j < old_r.len());
                    if v - 1 == j {
                        assert(lex_le(x@, old_r[j as int]@));
                    } else {
                        lemma_lex_le_trans(x@, old_r[j as int]@, old_r[v - 1]@);
                    }
                } else {
                    assert(r@[u] == old_r[u - 1] && r@[v] == old_r[v - 1]);
                }
            }
        }
        i = i + 1;
    }
    proof {
        assert(paths@.take(paths@.len() as int) =~= paths@);
    }
    r
}

/// Inserting an element anywhere adds exactly it to the sequence's multiset.
proof fn lemma_insert_to_multiset<A>(s: Seq<A>, j: int, x: A)
    requires
        0 <= j <= s.len(),
    ensures
        s.insert(j, x).to_multiset() == s.to_multiset().insert(x),
{
    broadcast use vstd::seq_lib::group_to_multiset_ensures;

    let t = s.insert(j, x);
    assert(t[j] == x);
    assert(t.remove(j) =~= s);
    assert(s.to_multiset() == t.to_multiset().remove(x));
    assert(t.to_multiset().count(x) > 0) by {
        assert(t.contains(x));
    }
    assert(t.to_multiset() =~= s.to_multiset().insert(x));
}

/// One step of `Seq::filter` along a prefix.
proof fn lemma_filter_take_step<A>(s: Seq<A>, pred: spec_fn(A) -> bool, i: int)
    requires
        0 <= i < s.len(),
    ensures
        s.take(i + 1).filter(pred) == if pred(s[i]) {
            s.take(i).filter(pred).push(s[i])
        } else {
            s.take(i).filter(pred)
        },
{
    reveal(Seq::filter);
    assert(s.take(i + 1).drop_last() =~= s.take(i));
    assert(s.take(i + 1).last() == s[i]);
}

/// Index where the final path component of `path` begins.
pub fn basename_pos(path: &str) -> (r: usize)
    ensures
        r == basename_start(path@, path@.len() as int),
        r <= path@.len(),
{
    let n: usize = path.unicode_len();
    let mut bs: usize = n;
    while bs > 0 && path.get_char(bs - 1) != '/'
        invariant
            bs <= n,
            n == path@.len(),
            basename_start(path@, n as int) == basename_start(path@, bs as int),
        decreases bs,
    {
        bs = bs - 1;
    }
    proof {
        assert(basename_start(path@, n as int) == bs);
    }
    bs
}

/// Whether the path names a text file: its extension, lowercased as std's
/// case folding has it, is one of `txt`, `md`, `rst`, `log`, `text`.
pub fn is_text_path(path: &str) -> (r: bool)
    ensures
        r == is_text_path_spec(path@),
{
    let n: usize = path.unicode_len();
    let bs: usize = basename_pos(path);
    let ghost base = basename_of(path@);
    proof {
        assert(base =~= path@.subrange(bs as int, n as int));
    }
    // Find the last dot inside that component.
    let mut dp: usize = n;
    while dp > bs && path.get_char(dp - 1) != '.'
        invariant
            bs <= dp <= n,
            n == path@.len(),
            base == path@.subrange(bs as int, n as int),
            last_dot_pos(base, base.len() as int) == last_dot_pos(base, dp - bs),
        decreases dp,
    {
        proof {
            assert(base[dp - 1 - bs] == path@[dp - 1]);
        }
        dp = dp - 1;
    }
    if dp == bs {
        proof {
            assert(last_dot_pos(base, 0) == -1);
        }
        return false;
    }
    proof {
        assert(base[dp - 1 - bs] == path@[dp - 1]);
        assert(last_dot_pos(base, dp - bs) == dp - 1 - bs);
    }
    if dp - 1 == bs {
        return false;
    }
    let ghost e = ext_of(path@).unwrap();
    let ext = path.substring_char(dp, n);
    proof {
        assert(e =~= ext@);
    }
    let low = lowercase(ext);
    let is_match = str_eq(low.as_str(), "txt") || str_eq(low.as_str(), "md") || str_eq(
        low.as_str(),
        "rst",
    ) || str_eq(low.as_str(), "log") || str_eq(low.as_str(), "text");
    is_match
}

/// Whether the two texts are the same sequence of characters.
pub fn str_eq(a: &str, b: &str) -> (r: bool)
    ensures
        r == (a@ == b@),
{
    let la: usize = a.unicode_len();
    let lb: usize = b.unicode_len();
    if la != lb {
        return false;
    }
    let mut i: usize = 0;
    while i < la
        invariant
            la == a@.len(),
            la == b@.len(),
            i <= la,
            forall|k: int| 0 <= k < i ==> a@[k] == b@[k],
        decreases la - i,
    {
        if a.get_char(i) != b.get_char(i) {
            return false;
        }
        i = i + 1;
    }
    proof {
        assert(a@ =~= b@);
    }
    true
}

/// Keep only text-file paths and sort them: the stable, ordered candidate
/// list the picker browses when no filter is typed.
pub fn collect_text_files(paths: Vec<String>) -> (r: Vec<String>)
    ensures
        r@.to_multiset() == paths@.filter(|p: String| is_text_path_spec(p@)).to_multiset(),
        paths_sorted(r@),
{
    let mut kept: Vec<String> = Vec::new();
    let mut i: usize = 0;
    proof {
        reveal(Seq::filter);
        assert(paths@.take(0).filter(|p: String| is_text_path_spec(p@)) =~= Seq::<String>::empty());
    }
    while i < paths.len()
        invariant
            i <= paths@.len(),
            kept@ == paths@.take(i as int).filter(|p: String| is_text_path_spec(p@)),
        decreases paths@.len() - i,
    {
        let p = paths[i].clone();
        proof {
            lemma_filter_take_step(paths@, |p: String| is_text_path_spec(p@), i as int);
        }
        if is_text_path(p.as_str()) {
            kept.push(p);
        }
        i = i + 1;
    }
    proof {
        assert(paths@.take(paths@.len() as int) =~= paths@);
    }
    sort_paths(kept)
}

/// No path survives a filter that matches none of them: the filtered list is
/// empty.
pub proof fn lemma_no_match_empty(files: Seq<String>, filter: Seq<char>)
    requires
        forall|k: int| 0 <= k < files.len() ==> !matches_filter(#[trigger] files[k], filter),
    ensures
        files.filter(|f: String| matches_filter(f, filter)).len() == 0,
    decreases files.len(),
{
    reveal(Seq::filter);
    let pred = |f: String| matches_filter(f, filter);
    if files.len() > 0 {
        assert forall|k: int| 0 <= k < files.drop_last().len() implies !matches_filter(
            #[trigger] files.drop_last()[k],
            filter,
        ) by {
            assert(files.drop_last()[k] == files[k]);
        }
        lemma_no_match_empty(files.drop_last(), filter);
        assert(!pred(files.last()));
        assert(files.filter(pred) == files.drop_last().filter(pred));
    }
}

/// The candidate paths whose lowercased text contains the lowercased filter,
/// in their original order.
pub fn filter_paths(files: &Vec<String>, filter: &str) -> (r: Vec<String>)
    ensures
        r@ == files@.filter(|f: String| matches_filter(f, filter@)),
{
    let low_filter = lowercase(filter);
    let mut r: Vec<String> = Vec::new();
    let mut i: usize = 0;
    proof {
        reveal(Seq::filter);
        assert(files@.take(0).filter(|f: String| matches_filter(f, filter@))
            =~= Seq::<String>::empty());
    }
    while i < files.len()
        invariant
            i <= files@.len(),
            low_filter@ == lower_of(filter@),
            r@ == files@.take(i as int).filter(|f: String| matches_filter(f, filter@)),
        decreases files@.len() - i,
    {
        let f = files[i].clone();
        proof {
            lemma_filter_take_step(files@, |f: String| matches_filter(f, filter@), i as int);
        }
        let low_path = lowercase(f.as_str());
        if contains_sub(low_path.as_str(), low_filter.as_str()) {
            r.push(f);
        }
        i = i + 1;
    }
    proof {
        assert(files@.take(files@.len() as int) =~= files@);
    }
    r
}

impl SpeedReader {
    /// The candidate paths whose lowercased text contains the lowercased
    /// filter, in their original order.
    pub fn filter_text_files(&self, files: &Vec<String>, filter: &str) -> (r: Vec<String>)
        ensures
            r@ == files@.filter(|f: String| matches_filter(f, filter@)),
    {
        filter_paths(files, filter)
    }
}

} // verus!
