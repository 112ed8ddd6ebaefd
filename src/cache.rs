//! The response cache: a table from request path to framed response,
//! and a handle that shares one table between connections behind a
//! reader-writer lock.

use std::sync::Arc;
use vstd::prelude::*;
use vstd::rwlock::{RwLock, RwLockPredicate};

verus! {

/// A table from request paths to responses, kept as a list of entries
/// with distinct keys. Entries are never evicted; a write to a present key
/// replaces its value.
pub struct Cache {
    entries: Vec<(String, Vec<u8>)>,
    contents: Ghost<Map<Seq<char>, Seq<u8>>>,
}

impl View for Cache {
    type V = Map<Seq<char>, Seq<u8>>;

    closed spec fn view(&self) -> Map<Seq<char>, Seq<u8>> {
        self.contents@
    }
}

impl Cache {
    /// No two entries share a key, and the entries are exactly the mapping.
    pub closed spec fn wf(&self) -> bool {
        &&& forall|i: int, j: int|
            0 <= i < j < self.entries@.len() ==> self.entries@[i].0@ != self.entries@[j].0@
        &&& forall|i: int|
            0 <= i < self.entries@.len() ==> #[trigger] self.contents@.contains_key(
                self.entries@[i].0@,
            ) && self.contents@[self.entries@[i].0@] == self.entries@[i].1@
        &&& forall|k: Seq<char>|
            #[trigger] self.contents@.contains_key(k) ==> exists|i: int|
                0 <= i < self.entries@.len() && self.entries@[i].0@ == k
    }

    pub fn new() -> (r: Cache)
        ensures
            r.wf(),
            r@ == Map::<Seq<char>, Seq<u8>>::empty(),
    {
        Cache { entries: Vec::new(), contents: Ghost(Map::empty()) }
    }

    /// The index of the entry for `key`, if there is one.
    fn find(&self, key: &String) -> (r: Option<usize>)
        requires
            self.wf(),
        ensures
            r is Some <==> self@.contains_key(key@),
            r matches Some(i) ==> i < self.entries@.len() && self.entries@[i as int].0@ == key@,
    {
        let mut i: usize = 0;
        while i < self.entries.len()
            invariant
                self.wf(),
                i <= self.entries@.len(),
                forall|j: int| 0 <= j < i ==> self.entries@[j].0@ != key@,
            decreases self.entries@.len() - i,
        {
            if self.entries[i].0 == *key {
                proof {
                    assert(self.contents@.contains_key(self.entries@[i as int].0@));
                }
                return Some(i);
            }
            i = i + 1;
        }
        None
    }

    /// A copy of the value stored under `key`.
    pub fn get_data(&self, key: &String) -> (r: Option<Vec<u8>>)
        requires
            self.wf(),
        ensures
            r is Some <==> self@.contains_key(key@),
            r matches Some(v) ==> v@ == self@[key@],
    {
        match self.find(key) {
            Some(i) => Some(self.entries[i].1.clone()),
            None => None,
        }
    }

    /// Stores `value` under `key`, replacing what was there.
    pub fn set_data(&mut self, key: String, value: Vec<u8>)
        requires
            old(self).wf(),
        ensures
            final(self).wf(),
            final(self)@ == old(self)@.insert(key@, value@),
    {
        let ghost k = key@;
        let ghost v = value@;
        let ghost old_entries = self.entries@;
        match self.find(&key) {
            Some(i) => {
                self.entries.set(i, (key, value));
                self.contents = Ghost(self.contents@.insert(k, v));
                proof {
                    assert forall|k2: Seq<char>| #[trigger]
                        self.contents@.contains_key(k2) implies exists|j: int|
                        0 <= j < self.entries@.len() && self.entries@[j].0@ == k2 by {
                        if k2 != k {
                            let j = choose|j: int|
                                0 <= j < old_entries.len() && old_entries[j].0@ == k2;
                            assert(self.entries@[j].0@ == k2);
                        } else {
                            assert(self.entries@[i as int].0@ == k2);
                        }
                    }
                }
            },
            None => {
                self.entries.push((key, value));
                self.contents = Ghost(self.contents@.insert(k, v));
                proof {
                    assert forall|k2: Seq<char>| #[trigger]
                        self.contents@.contains_key(k2) implies exists|j: int|
                        0 <= j < self.entries@.len() && self.entries@[j].0@ == k2 by {
                        if k2 != k {
                            let j = choose|j: int|
                                0 <= j < old_entries.len() && old_entries[j].0@ == k2;
                            assert(self.entries@[j].0@ == k2);
                        } else {
                            assert(self.entries@[old_entries.len() as int].0@ == k2);
                        }
                    }
                }
            },
        }
    }
}

/// The table that a fresh `Cache` holds after `set_data` was called with
/// each of `writes` in turn.
pub open spec fn replay(writes: Seq<(Seq<char>, Seq<u8>)>) -> Map<Seq<char>, Seq<u8>>
    decreases writes.len(),
{
    if writes.len() == 0 {
        Map::empty()
    } else {
        replay(writes.drop_last()).insert(writes.last().0, writes.last().1)
    }
}

/// After `set_data(k, v)`, `get_data(k)` returns a value equal to `v`, whatever the
/// table held before.
pub proof fn lemma_set_then_get(before: Map<Seq<char>, Seq<u8>>, k: Seq<char>, v: Seq<u8>)
    ensures
        before.insert(k, v).contains_key(k),
        before.insert(k, v)[k] == v,
{
}

/// After `set_data(k, v1)` and then `set_data(k, v2)`, `get_data(k)`
/// returns `v2`.
pub proof fn lemma_overwrite(
    before: Map<Seq<char>, Seq<u8>>,
    k: Seq<char>,
    v1: Seq<u8>,
    v2: Seq<u8>,
)
    ensures
        before.insert(k, v1).insert(k, v2).contains_key(k),
        before.insert(k, v1).insert(k, v2)[k] == v2,
{
}

/// A key that no write to a fresh table named is absent: `get_data` on it
/// returns `None`.
pub proof fn lemma_never_set_is_absent(writes: Seq<(Seq<char>, Seq<u8>)>, k: Seq<char>)
    requires
        forall|i: int| 0 <= i < writes.len() ==> writes[i].0 != k,
    ensures
        !replay(writes).contains_key(k),
    decreases writes.len(),
{
    if writes.len() > 0 {
        lemma_never_set_is_absent(writes.drop_last(), k);
    }
}

/// The lock's invariant: the table it guards stays well formed.
pub struct WellFormedCache;

impl RwLockPredicate<Cache> for WellFormedCache {
    open spec fn inv(self, v: Cache) -> bool {
        v.wf()
    }
}

/// The process-wide cache, shared by every connection: any number of
/// readers at once, one writer at a time, each holding the lock for a
/// single lookup or insertion. A read sees the table before or after a
/// write, never part of one.
pub struct AsyncCache {
    cache: RwLock<Cache, WellFormedCache>,
}

impl AsyncCache {
    pub fn new() -> (r: Arc<AsyncCache>) {
        Arc::new(AsyncCache { cache: RwLock::new(Cache::new(), Ghost(WellFormedCache)) })
    }

    /// Stores copies of `key` and `value`; meant to run detached from the
    /// connection that produced the response.
    pub fn set_data(&self, key: &String, value: &Vec<u8>) {
        let (mut table, handle) = self.cache.acquire_write();
        table.set_data(key.clone(), value.clone());
        handle.release_write(table);
    }

    /// A copy of the response cached under `key`, as the table held it at
    /// the moment of the read.
    pub fn get_data(&self, key: &String) -> (r: Option<Vec<u8>>) {
        let handle = self.cache.acquire_read();
        let r = handle.borrow().get_data(key);
        handle.release_read();
        r
    }
}

} // verus!
