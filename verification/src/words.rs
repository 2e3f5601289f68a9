//! Tokenizing raw text into the word list the engine plays back: the text is
//! split on Unicode whitespace, and only maximal runs that contain at least
//! one alphanumeric character are kept, in order.

use vstd::prelude::*;

use crate::text::{char_is_alphanumeric, char_is_whitespace, is_unicode_alnum, is_unicode_white};

verus! {

/// Whether the word `w` holds at least one alphanumeric character.
pub open spec fn has_alnum(w: Seq<char>) -> bool {
    exists|j: int| 0 <= j < w.len() && is_unicode_alnum(w[j])
}

/// Close the run `cur`: append it to the finished tokens when it is a word
/// worth keeping (non-empty with an alphanumeric character), drop it
/// otherwise.
pub open spec fn flush_token(ts: Seq<Seq<char>>, cur: Seq<char>) -> Seq<Seq<char>> {
    if cur.len() > 0 && has_alnum(cur) {
        ts.push(cur)
    } else {
        ts
    }
}

/// The tokenizer state after reading the first `i` characters of `s`: the
/// finished tokens so far, and the still-open run of non-whitespace
/// characters.
pub open spec fn scan_tokens(s: Seq<char>, i: int) -> (Seq<Seq<char>>, Seq<char>)
    decreases i,
{
    if i <= 0 {
        (Seq::<Seq<char>>::empty(), Seq::<char>::empty())
    } else {
        let p = scan_tokens(s, i - 1);
        if is_unicode_white(s[i - 1]) {
            (flush_token(p.0, p.1), Seq::<char>::empty())
        } else {
            (p.0, p.1.push(s[i - 1]))
        }
    }
}

/// The word list read from `s`: maximal whitespace-free runs, kept only when
/// they hold an alphanumeric character.
pub open spec fn tokenize(s: Seq<char>) -> Seq<Seq<char>> {
    let p = scan_tokens(s, s.len() as int);
    flush_token(p.0, p.1)
}

/// Extending a run by one character adds an alphanumeric character exactly
/// when the run had one already or the new character is one.
pub proof fn lemma_has_alnum_push(w: Seq<char>, c: char)
    ensures
        has_alnum(w.push(c)) == (has_alnum(w) || is_unicode_alnum(c)),
{
    if is_unicode_alnum(c) {
        assert(w.push(c)[w.len() as int] == c);
        assert(has_alnum(w.push(c)));
    }
    if has_alnum(w) {
        let j = choose|j: int| 0 <= j < w.len() && is_unicode_alnum(w[j]);
        assert(w.push(c)[j] == w[j]);
        assert(has_alnum(w.push(c)));
    }
    if has_alnum(w.push(c)) {
        let j = choose|j: int| 0 <= j < w.push(c).len() && is_unicode_alnum(w.push(c)[j]);
        if j < w.len() {
            assert(w[j] == w.push(c)[j]);
        } else {
            assert(w.push(c)[j] == c);
        }
    }
}

/// Split the text into its word list. Words are the maximal runs of
/// non-whitespace characters that hold at least one alphanumeric character,
/// in their order in the text.
pub fn parse_words(text: &str) -> (r: Vec<String>)
    ensures
        r.deep_view() == tokenize(text@),
{
    let n: usize = text.unicode_len();
    let mut result: Vec<String> = Vec::new();
    let mut cur: String = String::new();
    let mut saw_alnum: bool = false;
    let mut i: usize = 0;
    while i < n
        invariant
            n == text@.len(),
            i <= n,
            result.deep_view() == scan_tokens(text@, i as int).0,
            cur@ == scan_tokens(text@, i as int).1,
            saw_alnum == has_alnum(cur@),
        decreases n - i,
    {
        let ghost prev = scan_tokens(text@, i as int);
        let c = text.get_char(i);
        if char_is_whitespace(c) {
            if !cur.as_str().is_empty() && saw_alnum {
                let ghost old_dv = result.deep_view();
                result.push(cur);
                proof {
                    assert(result.deep_view() =~= old_dv.push(prev.1));
                }
            }
            cur = String::new();
            saw_alnum = false;
        } else {
            let ghost old_cur = cur@;
            cur.push(c);
            if char_is_alphanumeric(c) {
                saw_alnum = true;
            }
            proof {
                lemma_has_alnum_push(old_cur, c);
            }
        }
        i = i + 1;
        proof {
            assert(scan_tokens(text@, i as int) == (
                if is_unicode_white(text@[i - 1]) {
                    (flush_token(prev.0, prev.1), Seq::<char>::empty())
                } else {
                    (prev.0, prev.1.push(text@[i - 1]))
                }
            ));
        }
    }
    if !cur.as_str().is_empty() && saw_alnum {
        let ghost old_dv = result.deep_view();
        let ghost last = cur@;
        result.push(cur);
        proof {
            assert(result.deep_view() =~= old_dv.push(last));
        }
    }
    result
}

/// Whether the text holds anything besides whitespace: what would survive
/// trimming. A source whose text is all whitespace is not loaded.
pub fn has_content(text: &str) -> (r: bool)
    ensures
        r == exists|i: int| 0 <= i < text@.len() && !is_unicode_white(#[trigger] text@[i]),
{
    let n: usize = text.unicode_len();
    let mut i: usize = 0;
    while i < n
        invariant
            n == text@.len(),
            i <= n,
            forall|k: int| 0 <= k < i ==> is_unicode_white(#[trigger] text@[k]),
        decreases n - i,
    {
        let c = text.get_char(i);
        if !char_is_whitespace(c) {
            return true;
        }
        i = i + 1;
    }
    false
}

/// No text without a single alphanumeric character yields any word: its word
/// list is empty.
pub proof fn lemma_no_alnum_no_tokens(s: Seq<char>)
    requires
        forall|k: int| 0 <= k < s.len() ==> !is_unicode_alnum(s[k]),
    ensures
        tokenize(s).len() == 0,
{
    lemma_scan_no_alnum(s, s.len() as int);
}

/// Every token the tokenizer yields is non-empty and holds an alphanumeric
/// character.
pub proof fn lemma_tokens_are_words(s: Seq<char>)
    ensures
        forall|t: int| 0 <= t < tokenize(s).len() ==> #[trigger] tokenize(s)[t].len() > 0
            && has_alnum(tokenize(s)[t]),
{
    lemma_scan_tokens_are_words(s, s.len() as int);
    let p = scan_tokens(s, s.len() as int);
    assert forall|t: int| 0 <= t < tokenize(s).len() implies #[trigger] tokenize(s)[t].len() > 0
        && has_alnum(tokenize(s)[t]) by {
        if t < p.0.len() {
            assert(tokenize(s)[t] == p.0[t]);
        } else {
            assert(tokenize(s)[t] == p.1);
        }
    }
}

proof fn lemma_scan_no_alnum(s: Seq<char>, i: int)
    requires
        i <= s.len(),
        forall|k: int| 0 <= k < s.len() ==> !is_unicode_alnum(s[k]),
    ensures
        scan_tokens(s, i).0.len() == 0,
        !has_alnum(scan_tokens(s, i).1),
    decreases i,
{
    if i <= 0 {
        assert(!has_alnum(Seq::<char>::empty()));
    } else {
        lemma_scan_no_alnum(s, i - 1);
        let p = scan_tokens(s, i - 1);
        if is_unicode_white(s[i - 1]) {
            assert(!has_alnum(Seq::<char>::empty()));
        } else {
            lemma_has_alnum_push(p.1, s[i - 1]);
        }
    }
}

proof fn lemma_scan_tokens_are_words(s: Seq<char>, i: int)
    ensures
        forall|t: int| 0 <= t < scan_tokens(s, i).0.len() ==> #[trigger] scan_tokens(
            s,
            i,
        ).0[t].len() > 0 && has_alnum(scan_tokens(s, i).0[t]),
    decreases i,
{
    if i > 0 {
        lemma_scan_tokens_are_words(s, i - 1);
        let p = scan_tokens(s, i - 1);
        if is_unicode_white(s[i - 1]) {
            assert forall|t: int| 0 <= t < flush_token(p.0, p.1).len() implies #[trigger] flush_token(
                p.0,
                p.1,
            )[t].len() > 0 && has_alnum(flush_token(p.0, p.1)[t]) by {
                if t < p.0.len() {
                    assert(flush_token(p.0, p.1)[t] == p.0[t]);
                } else {
                    assert(flush_token(p.0, p.1)[t] == p.1);
                }
            }
        }
    }
}

} // verus!
