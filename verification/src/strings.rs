//! Character-level string helpers used by the URL and discovery logic.

use vstd::prelude::*;

verus! {

/// `p` is a prefix of `s`.
pub open spec fn seq_has_prefix(s: Seq<char>, p: Seq<char>) -> bool {
    p.len() <= s.len() && s.subrange(0, p.len() as int) == p
}

/// Whether `s` starts with `p`, compared character by character.
pub fn has_prefix(s: &str, p: &str) -> (r: bool)
    ensures
        r == seq_has_prefix(s@, p@),
{
    let s_len = s.unicode_len();
    let p_len = p.unicode_len();
    if p_len > s_len {
        assert(!seq_has_prefix(s@, p@));
        return false;
    }
    let mut i: usize = 0;
    while i < p_len
        invariant
            i <= p_len,
            p_len == p@.len(),
            p_len <= s_len,
            s_len == s@.len(),
            forall|j: int| 0 <= j < i ==> s@[j] == p@[j],
        decreases p_len - i,
    {
        if s.get_char(i) != p.get_char(i) {
            assert(!seq_has_prefix(s@, p@)) by {
                assert(s@.subrange(0, p@.len() as int)[i as int] == s@[i as int]);
            }
            return false;
        }
        i = i + 1;
    }
    assert(s@.subrange(0, p@.len() as int) =~= p@);
    true
}

} // verus!
