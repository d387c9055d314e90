//! Small operations on text that the other modules share.

use crate::scan::{first_index, lemma_first_index, lemma_first_index_unique};
use vstd::prelude::*;
use vstd::string::StrSliceExecFns;
use vstd::string::StringExecFns;

verus! {

/// Pairs of a name and a value, in order.
pub type Pairs = Seq<(Seq<char>, Seq<char>)>;

/// The part of `s` before the first `c`: all of `s` when `c` does not occur.
pub open spec fn before(s: Seq<char>, c: char) -> Seq<char> {
    s.take(first_index(s, c))
}

/// The characters of `s`, one by one.
pub fn chars_of(s: &str) -> (chars: Vec<char>)
    ensures
        chars@ == s@,
{
    let n = s.unicode_len();
    let mut chars: Vec<char> = Vec::new();
    let mut i: usize = 0;
    while i < n
        invariant
            n == s@.len(),
            i <= n,
            chars@ == s@.take(i as int),
        decreases n - i,
    {
        chars.push(s.get_char(i));
        i = i + 1;
    }
    chars
}

/// Whether two texts hold the same characters.
pub fn same_text(a: &str, b: &str) -> (same: bool)
    ensures
        same == (a@ == b@),
{
    let left = String::from_str(a);
    let right = String::from_str(b);
    left == right
}

/// The index of the first `c` in `s`, or the length of `s` in characters.
pub fn find_char(s: &str, c: char) -> (at: usize)
    ensures
        at == first_index(s@, c),
{
    let n = s.unicode_len();
    let mut i: usize = 0;
    while i < n && s.get_char(i) != c
        invariant
            n == s@.len(),
            i <= n,
            forall|j: int| 0 <= j < i ==> s@[j] != c,
        decreases n - i,
    {
        i = i + 1;
    }
    proof {
        lemma_first_index_unique(s@, c, i as int);
    }
    i
}

/// The part of `s` before its first `c`.
pub fn text_before(s: &str, c: char) -> (head: String)
    ensures
        head@ == before(s@, c),
{
    let at = find_char(s, c);
    proof {
        lemma_first_index(s@, c);
    }
    String::from_str(s.substring_char(0, at))
}

/// `s` without its first `skip` and its last `drop` characters, where it is
/// long enough to lose them.
pub open spec fn trimmed(s: Seq<char>, skip: nat, drop: nat) -> Option<Seq<char>> {
    if skip + drop <= s.len() {
        Some(s.subrange(skip as int, s.len() - drop))
    } else {
        None
    }
}

/// Cuts `skip` characters off the front of `s` and `drop` off its end.
pub fn trim_ends(s: &str, skip: usize, drop: usize) -> (inner: Option<String>)
    ensures
        inner.deep_view() == trimmed(s@, skip as nat, drop as nat),
{
    let n = s.unicode_len();
    if skip <= n && drop <= n - skip {
        Some(String::from_str(s.substring_char(skip, n - drop)))
    } else {
        None
    }
}

} // verus!
