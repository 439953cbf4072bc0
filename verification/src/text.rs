//! Character-level string helpers: prefix tests and length-bounded
//! truncation, specified over the character sequences of the inputs.

use vstd::prelude::*;

verus! {

/// True when `p` is a prefix of `s`, over character sequences.
pub open spec fn seq_starts_with(s: Seq<char>, p: Seq<char>) -> bool {
    p.len() <= s.len() && s.subrange(0, p.len() as int) == p
}

/// Whether the string `s` begins with the prefix `p`, compared character by
/// character.
pub fn starts_with_prefix(s: &str, p: &str) -> (r: bool)
    ensures
        r == seq_starts_with(s@, p@),
{
    let s_len = s.unicode_len();
    let p_len = p.unicode_len();
    if p_len > s_len {
        assert(!seq_starts_with(s@, p@));
        return false;
    }
    let mut i: usize = 0;
    while i < p_len
        invariant
            i <= p_len <= s_len,
            s_len == s@.len(),
            p_len == p@.len(),
            forall|j: int| 0 <= j < i ==> s@[j] == p@[j],
        decreases p_len - i,
    {
        if s.get_char(i) != p.get_char(i) {
            assert(!seq_starts_with(s@, p@)) by {
                assert(s@.subrange(0, p@.len() as int)[i as int] == s@[i as int]);
            }
            return false;
        }
        i = i + 1;
    }
    assert(s@.subrange(0, p@.len() as int) =~= p@);
    true
}

/// The first `max` characters of `s`, or all of `s` when it is shorter.
pub open spec fn truncated(s: Seq<char>, max: nat) -> Seq<char> {
    if s.len() <= max {
        s
    } else {
        s.subrange(0, max as int)
    }
}

/// A truncated sequence never exceeds the bound it was truncated to, and
/// input already within the bound passes through unchanged.
pub proof fn lemma_truncated_bounded(s: Seq<char>, max: nat)
    ensures
        truncated(s, max).len() <= max,
        s.len() <= max ==> truncated(s, max) == s,
{
}

/// Truncates `s` to at most `max` characters; shorter input is returned
/// unchanged, longer input keeps exactly its first `max` characters.
pub fn truncate_chars(s: &str, max: usize) -> (r: String)
    ensures
        r@ == truncated(s@, max as nat),
        r@.len() <= max,
{
    let len = s.unicode_len();
    if len <= max {
        s.to_owned()
    } else {
        let cut = s.substring_char(0, max);
        assert(cut@ == truncated(s@, max as nat));
        cut.to_owned()
    }
}

} // verus!
