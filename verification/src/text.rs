//! Small verified operations on text, in terms of sequences of characters.

use vstd::prelude::*;

verus! {

/// `pattern` occurs in `text` starting at character index `at`.
pub open spec fn occurs_at(text: Seq<char>, pattern: Seq<char>, at: int) -> bool {
    &&& 0 <= at
    &&& at + pattern.len() <= text.len()
    &&& text.subrange(at, at + pattern.len()) == pattern
}

/// `at` is the index of the leftmost occurrence of `pattern` in `text`.
pub open spec fn first_occurrence(text: Seq<char>, pattern: Seq<char>, at: int) -> bool {
    &&& occurs_at(text, pattern, at)
    &&& forall|earlier: int| 0 <= earlier < at ==> !occurs_at(text, pattern, earlier)
}

/// `text` with the occurrence of `pattern` at index `at` exchanged for
/// `replacement`.
pub open spec fn splice(text: Seq<char>, at: int, pattern: Seq<char>, replacement: Seq<char>) -> Seq<
    char,
> {
    text.subrange(0, at) + replacement + text.subrange(at + pattern.len(), text.len() as int)
}

/// `text` with its leftmost occurrence of `pattern` exchanged for
/// `replacement`; `text` itself when `pattern` does not occur.
pub open spec fn replace_first(text: Seq<char>, pattern: Seq<char>, replacement: Seq<char>) -> Seq<
    char,
> {
    if exists|at: int| first_occurrence(text, pattern, at) {
        let at = choose|at: int| first_occurrence(text, pattern, at);
        splice(text, at, pattern, replacement)
    } else {
        text
    }
}

/// The views of `items`, in order.
pub open spec fn views(items: Seq<String>) -> Seq<Seq<char>> {
    Seq::new(items.len(), |i: int| items[i]@)
}

/// Strict lexicographic order on text, character by character.
pub open spec fn lex_less(a: Seq<char>, b: Seq<char>) -> bool {
    exists|k: int|
        {
            &&& 0 <= k <= a.len()
            &&& k <= b.len()
            &&& #[trigger] a.subrange(0, k) == b.subrange(0, k)
            &&& (k == a.len() && k < b.len() || k < a.len() && k < b.len() && (a[k] as u32)
                < (b[k] as u32))
        }
}

/// A leftmost occurrence, where there is one, is unique.
pub proof fn lemma_first_occurrence_unique(text: Seq<char>, pattern: Seq<char>, a: int, b: int)
    requires
        first_occurrence(text, pattern, a),
        first_occurrence(text, pattern, b),
    ensures
        a == b,
{
}

/// Knowing where the leftmost occurrence is fixes the result of the
/// replacement.
pub proof fn lemma_replace_first_at(
    text: Seq<char>,
    pattern: Seq<char>,
    replacement: Seq<char>,
    at: int,
)
    requires
        first_occurrence(text, pattern, at),
    ensures
        replace_first(text, pattern, replacement) == splice(text, at, pattern, replacement),
{
    let chosen = choose|at: int| first_occurrence(text, pattern, at);
    lemma_first_occurrence_unique(text, pattern, at, chosen);
}

/// Whether two pieces of text hold the same characters.
pub fn text_eq(a: &str, b: &str) -> (same: bool)
    ensures
        same == (a@ == b@),
{
    let n = a.unicode_len();
    if n != b.unicode_len() {
        return false;
    }
    let mut i: usize = 0;
    while i < n
        invariant
            i <= n,
            n == a@.len(),
            n == b@.len(),
            forall|k: int| 0 <= k < i ==> a@[k] == b@[k],
        decreases n - i,
    {
        if a.get_char(i) != b.get_char(i) {
            return false;
        }
        i = i + 1;
    }
    assert(a@ =~= b@);
    true
}

/// Whether `pattern` occurs in `text` at character index `at`.
pub fn matches_at(text: &str, pattern: &str, at: usize) -> (found: bool)
    ensures
        found == occurs_at(text@, pattern@, at as int),
{
    let n = text.unicode_len();
    let m = pattern.unicode_len();
    if at > n || m > n - at {
        return false;
    }
    let mut i: usize = 0;
    while i < m
        invariant
            i <= m,
            n == text@.len(),
            m == pattern@.len(),
            at + m <= n,
            forall|k: int| 0 <= k < i ==> text@[at + k] == pattern@[k],
        decreases m - i,
    {
        if text.get_char(at + i) != pattern.get_char(i) {
            assert(text@.subrange(at as int, at + m)[i as int] == text@[at + i]);
            return false;
        }
        i = i + 1;
    }
    assert(text@.subrange(at as int, at + m) =~= pattern@);
    true
}

/// Exchanges the leftmost occurrence of `pattern` in `text` for
/// `replacement`. Text without an occurrence is returned unchanged.
pub fn replace_first_in(text: &str, pattern: &str, replacement: &str) -> (out: String)
    ensures
        out@ == replace_first(text@, pattern@, replacement@),
{
    let n = text.unicode_len();
    let m = pattern.unicode_len();
    let mut at: usize = 0;
    loop
        invariant
            at <= n,
            n == text@.len(),
            m == pattern@.len(),
            forall|earlier: int| 0 <= earlier < at ==> !occurs_at(text@, pattern@, earlier),
        ensures
            forall|earlier: int| 0 <= earlier <= n ==> !occurs_at(text@, pattern@, earlier),
        decreases n - at,
    {
        if matches_at(text, pattern, at) {
            proof {
                assert(first_occurrence(text@, pattern@, at as int));
                lemma_replace_first_at(text@, pattern@, replacement@, at as int);
            }
            let mut out = String::from_str(text.substring_char(0, at));
            out.append(replacement);
            out.append(text.substring_char(at + m, n));
            return out;
        }
        if at == n {
            break;
        }
        at = at + 1;
    }
    assert(!exists|p: int| first_occurrence(text@, pattern@, p));
    String::from_str(text)
}

} // verus!
