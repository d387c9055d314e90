//! The cookies that the session keeps across runs: one raw value under each
//! cookie name, the last one written.
//!
//! The store holds the pairs in memory, in the order in which their names
//! were first written. Keeping them on disk is the caller's part: it writes
//! what `for_each_persisted_cookie` hands out and brings it back at startup.

use crate::scan::{first_index, lemma_first_index, lemma_first_index_unique};
use crate::text::{same_text, Pairs};
use vstd::prelude::*;
use vstd::string::StringExecFns;

verus! {

/// The names of the pairs, in order.
pub open spec fn names(entries: Pairs) -> Seq<Seq<char>> {
    entries.map_values(|entry: (Seq<char>, Seq<char>)| entry.0)
}

/// The place of the first pair named `name`, or the number of pairs where
/// there is none.
pub open spec fn slot(entries: Pairs, name: Seq<char>) -> int {
    first_index(names(entries), name)
}

/// The value kept under `name`, if any.
pub open spec fn value_of(entries: Pairs, name: Seq<char>) -> Option<Seq<char>> {
    if slot(entries, name) < entries.len() {
        Some(entries[slot(entries, name)].1)
    } else {
        None
    }
}

/// The pairs after `value` was written under `name`: the pair of that name
/// is replaced where it stands, or a new pair is added at the end.
pub open spec fn put(entries: Pairs, name: Seq<char>, value: Seq<char>) -> Pairs {
    if slot(entries, name) < entries.len() {
        entries.update(slot(entries, name), (name, value))
    } else {
        entries.push((name, value))
    }
}

/// No name occurs twice.
pub open spec fn distinct(entries: Pairs) -> bool {
    forall|i: int, j: int| 0 <= i < j < entries.len() ==> entries[i].0 != entries[j].0
}

/// Writing under a name leaves no name twice.
pub proof fn lemma_put_keeps_distinct(entries: Pairs, name: Seq<char>, value: Seq<char>)
    requires
        distinct(entries),
    ensures
        distinct(put(entries, name, value)),
{
    lemma_first_index(names(entries), name);
    let after = put(entries, name, value);
    let at = slot(entries, name);
    assert forall|i: int, j: int| 0 <= i < j < after.len() implies after[i].0 != after[j].0 by {
        if at >= entries.len() && j == entries.len() {
            assert(names(entries)[i] != name);
        }
    }
}

/// What was written under a name is what is read under it afterwards, and
/// the pair stands among the pairs.
pub proof fn lemma_put_then_get(entries: Pairs, name: Seq<char>, value: Seq<char>)
    ensures
        value_of(put(entries, name, value), name) == Some(value),
        put(entries, name, value).contains((name, value)),
{
    lemma_first_index(names(entries), name);
    let after = put(entries, name, value);
    let at = slot(entries, name);
    assert forall|i: int| 0 <= i < at implies names(after)[i] != name by {
        assert(names(entries)[i] != name);
    }
    lemma_first_index_unique(names(after), name, at);
}

/// Writing under one name changes nothing under another.
pub proof fn lemma_put_keeps_others(
    entries: Pairs,
    name: Seq<char>,
    value: Seq<char>,
    other: Seq<char>,
)
    requires
        other != name,
    ensures
        value_of(put(entries, name, value), other) == value_of(entries, other),
{
    lemma_first_index(names(entries), name);
    lemma_first_index(names(entries), other);
    let after = put(entries, name, value);
    let at = slot(entries, other);
    assert forall|i: int| 0 <= i < at implies names(after)[i] != other by {
        assert(names(entries)[i] != other);
    }
    if at < entries.len() {
        lemma_first_index_unique(names(after), other, at);
    } else {
        lemma_first_index_unique(names(after), other, after.len() as int);
    }
}

/// Where no name occurs twice, a pair that was written is the only pair of
/// its name: reading the pairs back gives that name with that value, once.
pub proof fn lemma_written_pair_is_read_back(entries: Pairs, name: Seq<char>, value: Seq<char>)
    requires
        distinct(entries),
    ensures
        forall|i: int|
            0 <= i < put(entries, name, value).len() && (#[trigger] put(entries, name, value)[i]).0
                == name ==> put(entries, name, value)[i] == (name, value),
        exists|i: int|
            0 <= i < put(entries, name, value).len() && #[trigger] put(entries, name, value)[i]
                == (name, value),
{
    lemma_put_keeps_distinct(entries, name, value);
    lemma_put_then_get(entries, name, value);
    let after = put(entries, name, value);
    lemma_first_index(names(after), name);
    let at = slot(after, name);
}

/// One persisted cookie: its name and the raw value last seen for it.
#[derive(Debug, Clone, PartialEq, Eq)]
pub struct Cookie {
    pub name: String,
    pub value: String,
}

impl View for Cookie {
    type V = (Seq<char>, Seq<char>);

    open spec fn view(&self) -> (Seq<char>, Seq<char>) {
        (self.name@, self.value@)
    }
}

impl DeepView for Cookie {
    type V = (Seq<char>, Seq<char>);

    open spec fn deep_view(&self) -> (Seq<char>, Seq<char>) {
        self@
    }
}

/// The persisted cookies. No name is kept twice.
#[derive(Debug)]
pub struct CredentialStore {
    entries: Vec<Cookie>,
}

impl View for CredentialStore {
    type V = Pairs;

    closed spec fn view(&self) -> Pairs {
        self.entries.deep_view()
    }
}

impl CredentialStore {
    /// What holds of every store: no name is kept twice.
    #[verifier::type_invariant]
    pub open spec fn names_are_distinct(self) -> bool {
        distinct(self@)
    }

    /// A store that keeps nothing.
    pub fn new() -> (store: CredentialStore)
        ensures
            store@ == Pairs::empty(),
    {
        let store = CredentialStore { entries: Vec::new() };
        store
    }

    /// The number of cookies kept.
    pub fn len(&self) -> (count: usize)
        ensures
            count == self@.len(),
    {
        self.entries.len()
    }

    fn find(&self, name: &str) -> (at: usize)
        ensures
            at == slot(self@, name@),
            at <= self@.len(),
    {
        let n = self.entries.len();
        let mut i: usize = 0;
        while i < n && !same_text(self.entries[i].name.as_str(), name)
            invariant
                n == self.entries@.len(),
                i <= n,
                forall|j: int| 0 <= j < i ==> self.entries@[j].name@ != name@,
            decreases n - i,
        {
            i = i + 1;
        }
        proof {
            lemma_first_index_unique(names(self@), name@, i as int);
        }
        i
    }

    /// Keeps `value` under `name`, in place of what was kept under that name.
    pub fn persist_cookie(&mut self, name: &str, value: &str)
        ensures
            final(self)@ == put(old(self)@, name@, value@),
            value_of(final(self)@, name@) == Some(value@),
    {
        proof {
            use_type_invariant(&*self);
            lemma_put_keeps_distinct(self@, name@, value@);
            lemma_put_then_get(self@, name@, value@);
        }
        let at = self.find(name);
        let entry = Cookie { name: String::from_str(name), value: String::from_str(value) };
        let mut entries: Vec<Cookie> = Vec::new();
        core::mem::swap(&mut self.entries, &mut entries);
        if at < entries.len() {
            entries.set(at, entry);
        } else {
            entries.push(entry);
        }
        assert(entries.deep_view() =~= put(old(self)@, name@, value@));
        core::mem::swap(&mut self.entries, &mut entries);
    }

    /// The raw value kept under `name`, if any.
    pub fn lookup(&self, name: &str) -> (value: Option<String>)
        ensures
            value.deep_view() == value_of(self@, name@),
    {
        let at = self.find(name);
        if at < self.entries.len() {
            Some(self.entries[at].value.clone())
        } else {
            None
        }
    }

    /// Every cookie kept, as a pair of name and raw value, in the order in
    /// which the names were first written.
    pub fn for_each_persisted_cookie(&self) -> (pairs: Vec<(String, String)>)
        ensures
            pairs.deep_view() == self@,
    {
        let n = self.entries.len();
        let mut pairs: Vec<(String, String)> = Vec::new();
        let mut i: usize = 0;
        while i < n
            invariant
                n == self.entries@.len(),
                i <= n,
                pairs@.len() == i,
                forall|k: int|
                    0 <= k < i ==> (#[trigger] pairs@[k]).deep_view() == self.entries@[k]@,
            decreases n - i,
        {
            let entry = &self.entries[i];
            pairs.push((entry.name.clone(), entry.value.clone()));
            i = i + 1;
        }
        pairs
    }

    /// Forgets every cookie.
    pub fn clear_all(&mut self)
        ensures
            final(self)@ == Pairs::empty(),
    {
        let entries: Vec<Cookie> = Vec::new();
        self.entries = entries;
    }
}

} // verus!
