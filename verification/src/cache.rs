//! The result cache: a durable key/value store of text, looked up by exact
//! match on the full key. Values written under a key are only ever replaced
//! by a later write under the very same key; there is no eviction.

use vstd::prelude::*;

verus! {

/// What a write log means: later writes under the same key win.
pub open spec fn entries_map(es: Seq<(String, String)>) -> Map<Seq<char>, Seq<char>>
    decreases es.len(),
{
    if es.len() == 0 {
        Map::empty()
    } else {
        entries_map(es.drop_last()).insert(es.last().0@, es.last().1@)
    }
}

proof fn lemma_entries_map_absent(es: Seq<(String, String)>, k: Seq<char>)
    requires
        forall|i: int| 0 <= i < es.len() ==> es[i].0@ != k,
    ensures
        !entries_map(es).dom().contains(k),
    decreases es.len(),
{
    if es.len() > 0 {
        lemma_entries_map_absent(es.drop_last(), k);
    }
}

proof fn lemma_entries_map_found(es: Seq<(String, String)>, k: Seq<char>, i: int)
    requires
        0 <= i < es.len(),
        es[i].0@ == k,
        forall|j: int| i < j < es.len() ==> es[j].0@ != k,
    ensures
        entries_map(es).dom().contains(k),
        entries_map(es)[k] == es[i].1@,
    decreases es.len(),
{
    if i < es.len() - 1 {
        lemma_entries_map_found(es.drop_last(), k, i);
    }
}

/// A key/value store of text. The key of an entry is the exact text it was
/// stored under; a lookup hits only on a byte-identical key.
pub struct Cache {
    entries: Vec<(String, String)>,
}

impl View for Cache {
    type V = Map<Seq<char>, Seq<char>>;

    closed spec fn view(&self) -> Map<Seq<char>, Seq<char>> {
        entries_map(self.entries@)
    }
}

impl Cache {
    /// An empty store.
    pub fn new() -> (r: Cache)
        ensures
            r@ == Map::<Seq<char>, Seq<char>>::empty(),
    {
        Cache { entries: Vec::new() }
    }

    /// The stored text under `key`, if any was written.
    pub fn get(&self, key: &str) -> (r: Option<String>)
        ensures
            match r {
                Some(v) => self@.dom().contains(key@) && v@ == self@[key@],
                None => !self@.dom().contains(key@),
            },
    {
        let owned: String = key.to_owned();
        let n = self.entries.len();
        let mut i: usize = n;
        while i > 0
            invariant
                i <= n,
                n == self.entries@.len(),
                owned@ == key@,
                forall|j: int| i <= j < n ==> self.entries@[j].0@ != key@,
            decreases i,
        {
            i = i - 1;
            if self.entries[i].0 == owned {
                proof {
                    lemma_entries_map_found(self.entries@, key@, i as int);
                }
                return Some(self.entries[i].1.clone());
            }
        }
        proof {
            lemma_entries_map_absent(self.entries@, key@);
        }
        None
    }

    /// Stores `value` under `key`, replacing what an earlier write under the
    /// same key left there.
    pub fn set(&mut self, key: String, value: String)
        ensures
            final(self)@ == old(self)@.insert(key@, value@),
    {
        let ghost old_entries = self.entries@;
        self.entries.push((key, value));
        proof {
            assert(self.entries@.drop_last() =~= old_entries);
        }
    }

    /// The write log, oldest first; its meaning is the store's contents.
    pub fn items(&self) -> (r: &Vec<(String, String)>)
        ensures
            entries_map(r@) == self@,
    {
        &self.entries
    }
}

} // verus!
