//! Finding the first place of a value in a sequence.

use vstd::prelude::*;

verus! {

/// The index of the first `x` in `s`, or the length of `s` when `x` does not occur.
pub open spec fn first_index<A>(s: Seq<A>, x: A) -> int
    decreases s.len(),
{
    if s.len() == 0 || s[0] == x {
        0
    } else {
        1 + first_index(s.drop_first(), x)
    }
}

/// `first_index` lies within the sequence, nothing before it is `x`, and
/// where it is not the end of the sequence it holds `x`.
pub proof fn lemma_first_index<A>(s: Seq<A>, x: A)
    ensures
        0 <= first_index(s, x) <= s.len(),
        forall|i: int| 0 <= i < first_index(s, x) ==> s[i] != x,
        first_index(s, x) < s.len() ==> s[first_index(s, x)] == x,
    decreases s.len(),
{
    if s.len() == 0 || s[0] == x {
    } else {
        let rest = s.drop_first();
        lemma_first_index(rest, x);
        assert forall|i: int| 0 <= i < first_index(s, x) implies s[i] != x by {
            if i > 0 {
                assert(s[i] == rest[i - 1]);
            }
        }
    }
}

/// An index with the properties of `first_index` is `first_index`.
pub proof fn lemma_first_index_unique<A>(s: Seq<A>, x: A, k: int)
    requires
        0 <= k <= s.len(),
        forall|i: int| 0 <= i < k ==> s[i] != x,
        k < s.len() ==> s[k] == x,
    ensures
        k == first_index(s, x),
{
    lemma_first_index(s, x);
}

} // verus!
