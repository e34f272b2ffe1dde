//! Substring containment and NG-word masking over character sequences.
//!
//! [`mask_all`] is the single-word moderation step: every occurrence of a
//! pattern, scanning left to right and never rescanning replaced text, is
//! replaced by a run of `*` of the same length. [`moderate`] folds that step
//! over a dictionary in order. An empty pattern masks nothing.

use vstd::prelude::*;
use vstd::string::*;

verus! {

/// Holds iff `pat` occurs in `s` as the contiguous substring starting at `i`.
pub open spec fn occurs_at(s: Seq<char>, pat: Seq<char>, i: int) -> bool {
    0 <= i && i + pat.len() <= s.len() && s.subrange(i, i + pat.len()) == pat
}

/// Holds iff `pat` occurs somewhere in `s` as a contiguous substring.
pub open spec fn contains_seq(s: Seq<char>, pat: Seq<char>) -> bool {
    exists|i: int| occurs_at(s, pat, i)
}

/// Holds iff some word of `words` occurs in `name` as a contiguous
/// substring.
pub open spec fn any_word_in(name: Seq<char>, words: Seq<Seq<char>>) -> bool {
    exists|k: int| 0 <= k < words.len() && contains_seq(name, #[trigger] words[k])
}

/// A run of `n` mask characters.
pub open spec fn stars(n: nat) -> Seq<char> {
    Seq::new(n, |i: int| '*')
}

/// Replaces every occurrence of `pat` in `s` with a same-length run of `*`,
/// scanning left to right; text written by an earlier replacement is never
/// rescanned. An empty `pat` leaves `s` unchanged.
pub open spec fn mask_all(s: Seq<char>, pat: Seq<char>) -> Seq<char>
    decreases s.len(),
{
    if pat.len() == 0 || s.len() < pat.len() {
        s
    } else if s.subrange(0, pat.len() as int) == pat {
        stars(pat.len()) + mask_all(s.skip(pat.len() as int), pat)
    } else {
        seq![s[0]] + mask_all(s.skip(1), pat)
    }
}

/// The moderation transform: masks each dictionary word in order, each step
/// working on the output of the previous one.
pub open spec fn moderate(content: Seq<char>, words: Seq<Seq<char>>) -> Seq<char>
    decreases words.len(),
{
    if words.len() == 0 {
        content
    } else {
        moderate(mask_all(content, words[0]), words.drop_first())
    }
}

/// Masking preserves the length of the text.
pub proof fn lemma_mask_all_len(s: Seq<char>, pat: Seq<char>)
    ensures
        mask_all(s, pat).len() == s.len(),
    decreases s.len(),
{
    if pat.len() == 0 || s.len() < pat.len() {
    } else if s.subrange(0, pat.len() as int) == pat {
        lemma_mask_all_len(s.skip(pat.len() as int), pat);
    } else {
        lemma_mask_all_len(s.skip(1), pat);
    }
}

/// The moderation transform preserves the length of the content; in
/// particular a nonempty post can never be masked into an empty one.
pub proof fn lemma_moderate_len(content: Seq<char>, words: Seq<Seq<char>>)
    ensures
        moderate(content, words).len() == content.len(),
    decreases words.len(),
{
    if words.len() == 0 {
    } else {
        lemma_mask_all_len(content, words[0]);
        lemma_moderate_len(mask_all(content, words[0]), words.drop_first());
    }
}

/// Unfolds one character step of `mask_all` when no match starts at the head.
proof fn lemma_mask_step_char(s: Seq<char>, pat: Seq<char>)
    requires
        s.len() >= 1,
        pat.len() >= 1,
        s.len() >= pat.len() ==> s.subrange(0, pat.len() as int) != pat,
    ensures
        mask_all(s, pat) == seq![s[0]] + mask_all(s.skip(1), pat),
{
    if s.len() < pat.len() {
        assert(s.skip(1).len() < pat.len());
        assert(seq![s[0]] + s.skip(1) =~= s);
    }
}

/// A pattern that does not occur in the text is not masked: the text stays
/// exactly as it was.
pub proof fn lemma_mask_all_unchanged(s: Seq<char>, pat: Seq<char>)
    requires
        !contains_seq(s, pat),
    ensures
        mask_all(s, pat) == s,
    decreases s.len(),
{
    if pat.len() == 0 {
        assert(s.subrange(0, 0) =~= pat);
        assert(occurs_at(s, pat, 0));
    } else if s.len() < pat.len() {
    } else {
        assert(!occurs_at(s, pat, 0));
        assert(s.subrange(0, pat.len() as int) != pat);
        assert(!contains_seq(s.skip(1), pat)) by {
            if contains_seq(s.skip(1), pat) {
                let i = choose|i: int| occurs_at(s.skip(1), pat, i);
                assert(s.subrange(i + 1, i + 1 + pat.len()) =~= s.skip(1).subrange(
                    i,
                    i + pat.len(),
                ));
                assert(occurs_at(s, pat, i + 1));
            }
        }
        lemma_mask_all_unchanged(s.skip(1), pat);
        assert(seq![s[0]] + s.skip(1) =~= s);
    }
}

/// A dictionary none of whose words occurs in the content moderates it to
/// itself.
pub proof fn lemma_moderate_unchanged(content: Seq<char>, words: Seq<Seq<char>>)
    requires
        forall|k: int| 0 <= k < words.len() ==> !contains_seq(content, #[trigger] words[k]),
    ensures
        moderate(content, words) == content,
    decreases words.len(),
{
    if words.len() == 0 {
    } else {
        lemma_mask_all_unchanged(content, words[0]);
        assert(forall|k: int|
            0 <= k < words.drop_first().len() ==> words.drop_first()[k] == words[k + 1]);
        lemma_moderate_unchanged(content, words.drop_first());
    }
}

/// The moderation transform is idempotent whenever no dictionary word still
/// occurs in the transformed content: a second pass then changes nothing.
/// (When a word does still occur — which the sequential word-by-word masking
/// permits, e.g. when one dictionary word contains another — a second pass
/// may mask further.)
pub proof fn lemma_moderate_idempotent(content: Seq<char>, words: Seq<Seq<char>>)
    requires
        forall|k: int|
            0 <= k < words.len() ==> !contains_seq(moderate(content, words), #[trigger] words[k]),
    ensures
        moderate(moderate(content, words), words) == moderate(content, words),
{
    lemma_moderate_unchanged(moderate(content, words), words);
}

/// Relies on `String::push`: appends exactly the one character to the string.
#[verifier::external_body]
pub(crate) fn push_char(s: &mut String, c: char)
    ensures
        final(s)@ == old(s)@.push(c),
{
    s.push(c);
}

/// Compares the window of `s` starting at `i` with `pat`, character by
/// character.
fn matches_at(s: &str, pat: &str, i: usize, n: usize, m: usize) -> (b: bool)
    requires
        n == s@.len(),
        m == pat@.len(),
        i + m <= n,
    ensures
        b == occurs_at(s@, pat@, i as int),
{
    let mut j: usize = 0;
    while j < m
        invariant
            n == s@.len(),
            m == pat@.len(),
            i + m <= n,
            j <= m,
            forall|k: int| 0 <= k < j ==> s@[i + k] == pat@[k],
        decreases m - j,
    {
        if s.get_char(i + j) != pat.get_char(j) {
            assert(!occurs_at(s@, pat@, i as int)) by {
                if occurs_at(s@, pat@, i as int) {
                    assert(s@.subrange(i as int, i + m)[j as int] == s@[i + j]);
                }
            }
            return false;
        }
        j += 1;
    }
    assert(s@.subrange(i as int, i + m) =~= pat@);
    true
}

/// Decides string equality, character by character.
pub fn str_eq(a: &str, b: &str) -> (r: bool)
    ensures
        r == (a@ == b@),
{
    let n = a.unicode_len();
    let m = b.unicode_len();
    if n != m {
        return false;
    }
    let mut i: usize = 0;
    while i < n
        invariant
            n == a@.len(),
            n == b@.len(),
            i <= n,
            forall|k: int| 0 <= k < i ==> a@[k] == b@[k],
        decreases n - i,
    {
        if a.get_char(i) != b.get_char(i) {
            return false;
        }
        i += 1;
    }
    proof {
        assert(a@ =~= b@);
    }
    true
}

/// Decides substring containment: does `pat` occur anywhere in `s`?
pub fn contains_str(s: &str, pat: &str) -> (b: bool)
    ensures
        b == contains_seq(s@, pat@),
{
    let n = s.unicode_len();
    let m = pat.unicode_len();
    if m == 0 {
        proof {
            assert(s@.subrange(0, 0) =~= pat@);
            assert(occurs_at(s@, pat@, 0));
        }
        return true;
    }
    if m > n {
        assert(!contains_seq(s@, pat@)) by {
            if contains_seq(s@, pat@) {
                let i = choose|i: int| occurs_at(s@, pat@, i);
                assert(i + m <= n);
            }
        }
        return false;
    }
    let mut i: usize = 0;
    while i <= n - m
        invariant
            n == s@.len(),
            m == pat@.len(),
            1 <= m <= n,
            i <= n - m + 1,
            forall|k: int| 0 <= k < i ==> !occurs_at(s@, pat@, k),
        decreases n - i,
    {
        if matches_at(s, pat, i, n, m) {
            assert(contains_seq(s@, pat@));
            return true;
        }
        i += 1;
    }
    assert(!contains_seq(s@, pat@)) by {
        if contains_seq(s@, pat@) {
            let k = choose|k: int| occurs_at(s@, pat@, k);
            assert(k <= n - m);
        }
    }
    false
}

/// Masks every occurrence of `pat` in `s` with a same-length run of `*`,
/// scanning left to right, as [`mask_all`] describes.
pub fn mask_word(s: &str, pat: &str) -> (r: String)
    ensures
        r@ == mask_all(s@, pat@),
{
    let n = s.unicode_len();
    let m = pat.unicode_len();
    if m == 0 || m > n {
        return String::from_str(s);
    }
    let mut out = String::new();
    let mut i: usize = 0;
    proof {
        assert(s@.skip(0) =~= s@);
        assert(Seq::<char>::empty() + mask_all(s@, pat@) =~= mask_all(s@, pat@));
    }
    while i <= n - m
        invariant
            n == s@.len(),
            m == pat@.len(),
            1 <= m <= n,
            i <= n,
            mask_all(s@, pat@) == out@ + mask_all(s@.skip(i as int), pat@),
        decreases n - i,
    {
        if matches_at(s, pat, i, n, m) {
            proof {
                assert(s@.skip(i as int).subrange(0, m as int) =~= s@.subrange(i as int, i + m));
                assert(s@.skip(i as int).skip(m as int) =~= s@.skip(i + m));
            }
            let ghost out0 = out@;
            let mut j: usize = 0;
            while j < m
                invariant
                    j <= m,
                    out@ == out0 + stars(j as nat),
                decreases m - j,
            {
                proof {
                    assert(out0 + stars((j + 1) as nat) =~= (out0 + stars(j as nat)).push('*'));
                }
                push_char(&mut out, '*');
                j += 1;
            }
            proof {
                assert((out0 + stars(m as nat)) + mask_all(s@.skip(i + m), pat@) =~= out0 + (stars(
                    m as nat,
                ) + mask_all(s@.skip(i + m), pat@)));
            }
            i += m;
        } else {
            let c = s.get_char(i);
            proof {
                assert(s@.skip(i as int).subrange(0, m as int) =~= s@.subrange(i as int, i + m));
                lemma_mask_step_char(s@.skip(i as int), pat@);
                assert(s@.skip(i as int).skip(1) =~= s@.skip(i + 1));
                assert(out@.push(c) =~= out@ + seq![c]);
                assert((out@ + seq![c]) + mask_all(s@.skip(i + 1), pat@) =~= out@ + (seq![c]
                    + mask_all(s@.skip(i + 1), pat@)));
            }
            push_char(&mut out, c);
            i += 1;
        }
    }
    let tail = s.substring_char(i, n);
    proof {
        assert(s@.subrange(i as int, n as int) =~= s@.skip(i as int));
        assert(s@.skip(i as int).len() < m);
    }
    out.append(tail);
    out
}

} // verus!
