//! Raw account-state snapshots: an association from opaque byte keys (access
//! paths) to opaque byte values (encoded resources).
//!
//! A snapshot is consumed as an already-fetched, in-memory value; reading it
//! is a pure computation. Lookup is specified by `spec_get`, a first-match
//! scan of the stored entries, and insertion shadows any previous entry for
//! the same key.

use vstd::prelude::*;

verus! {

/// An account-state snapshot: an ordered byte-key to byte-value association.
#[derive(Debug)]
pub struct AccountMap {
    entries: Vec<(Vec<u8>, Vec<u8>)>,
}

/// First-match lookup of `key` in `s`.
pub closed spec fn spec_get_rec(s: Seq<(Vec<u8>, Vec<u8>)>, key: Seq<u8>) -> Option<Seq<u8>>
    decreases s.len(),
{
    if s.len() == 0 {
        None
    } else if s[0].0@ == key {
        Some(s[0].1@)
    } else {
        spec_get_rec(s.subrange(1, s.len() as int), key)
    }
}

/// Skipping entries whose keys all differ from `key` does not change the
/// result of the lookup.
proof fn lemma_get_rec_skip(s: Seq<(Vec<u8>, Vec<u8>)>, key: Seq<u8>, i: int)
    requires
        0 <= i <= s.len(),
        forall|j: int| 0 <= j < i ==> s[j].0@ != key,
    ensures
        spec_get_rec(s, key) == spec_get_rec(s.subrange(i, s.len() as int), key),
    decreases i,
{
    if i > 0 {
        let rest = s.subrange(1, s.len() as int);
        lemma_get_rec_skip(rest, key, i - 1);
        assert(rest.subrange(i - 1, rest.len() as int) =~= s.subrange(i, s.len() as int));
    } else {
        assert(s.subrange(0, s.len() as int) =~= s);
    }
}

impl AccountMap {
    /// What `key` maps to, if anything.
    pub closed spec fn spec_get(&self, key: Seq<u8>) -> Option<Seq<u8>> {
        spec_get_rec(self.entries@, key)
    }

    /// An empty snapshot.
    pub fn new() -> (r: AccountMap)
        ensures
            forall|k: Seq<u8>| r.spec_get(k) is None,
    {
        AccountMap { entries: Vec::new() }
    }

    /// Add an entry, shadowing any previous entry for the same key.
    pub fn insert(&mut self, key: Vec<u8>, value: Vec<u8>)
        ensures
            final(self).spec_get(key@) == Some(value@),
            forall|k: Seq<u8>| k != key@ ==> final(self).spec_get(k) == old(self).spec_get(k),
    {
        let ghost old_entries = self.entries@;
        let ghost key_view = key@;
        let ghost value_view = value@;
        self.entries.insert(0, (key, value));
        proof {
            assert(self.entries@.subrange(1, self.entries@.len() as int) =~= old_entries);
            assert(self.entries@[0].0@ == key_view);
            assert(self.entries@[0].1@ == value_view);
        }
    }

    /// Look `key` up, returning a reference to the stored value bytes.
    pub fn get(&self, key: &Vec<u8>) -> (r: Option<&Vec<u8>>)
        ensures
            match r {
                Some(v) => self.spec_get(key@) == Some(v@),
                None => self.spec_get(key@) is None,
            },
    {
        let n = self.entries.len();
        let mut i: usize = 0;
        while i < n
            invariant
                n == self.entries@.len(),
                0 <= i <= n,
                forall|j: int| 0 <= j < i ==> self.entries@[j].0@ != key@,
            decreases n - i,
        {
            if &self.entries[i].0 == key {
                proof {
                    lemma_get_rec_skip(self.entries@, key@, i as int);
                    assert(self.entries@.subrange(i as int, n as int)[0] == self.entries@[
                        i as int
                    ]);
                    assert(self.entries@[i as int].0@ =~= key@);
                }
                return Some(&self.entries[i].1);
            }
            proof {
                if self.entries@[i as int].0@ == key@ {
                    assert(self.entries@[i as int].0@ =~= key@);
                    assert(false);
                }
            }
            i = i + 1;
        }
        proof {
            lemma_get_rec_skip(self.entries@, key@, n as int);
            assert(self.entries@.subrange(n as int, n as int) =~= Seq::<(Vec<u8>, Vec<
                u8,
            >)>::empty());
        }
        None
    }
}

} // verus!
