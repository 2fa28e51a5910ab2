//! The keyed record store: fixed-size records addressable by a derived
//! identifier, with get, create, create-if-absent and update, each atomic
//! with respect to the single record it touches.

use vstd::prelude::*;
use crate::error::ERC20Error;
use crate::identity::{id_eq, Identifier};

verus! {

/// A keyed store of 64-bit record values. Token accounts keep a balance
/// here; allowance records keep a remaining approved amount.
pub struct RecordStore {
    entries: Vec<(Identifier, u64)>,
}

/// True when some entry of `s` holds key `k`.
pub open spec fn key_in(s: Seq<(Identifier, u64)>, k: Seq<u8>) -> bool {
    exists|i: int| 0 <= i < s.len() && s[i].0@ == k
}

/// The value of the entry of `s` holding key `k`; meaningful when the keys
/// of `s` are unique and `k` is among them.
pub open spec fn value_in(s: Seq<(Identifier, u64)>, k: Seq<u8>) -> u64 {
    s[choose|i: int| 0 <= i < s.len() && s[i].0@ == k].1
}

/// No two entries of `s` hold the same key.
pub open spec fn keys_unique(s: Seq<(Identifier, u64)>) -> bool {
    forall|i: int, j: int| 0 <= i < j < s.len() ==> s[i].0@ != s[j].0@
}

/// The finite map that the entry sequence `s` represents.
pub open spec fn map_of(s: Seq<(Identifier, u64)>) -> Map<Seq<u8>, u64> {
    Map::new(|k: Seq<u8>| key_in(s, k), |k: Seq<u8>| value_in(s, k))
}

/// An entry present at index `i` of a store with unique keys is what the
/// represented map holds at that entry's key.
proof fn lemma_value_at(s: Seq<(Identifier, u64)>, i: int)
    requires
        keys_unique(s),
        0 <= i < s.len(),
    ensures
        map_of(s).contains_key(s[i].0@),
        map_of(s)[s[i].0@] == s[i].1,
{
    assert(key_in(s, s[i].0@));
    let j = choose|j: int| 0 <= j < s.len() && s[j].0@ == s[i].0@;
    if j < i {
        assert(s[j].0@ != s[i].0@);
    } else if i < j {
        assert(s[i].0@ != s[j].0@);
    }
}

/// A key held by no entry is outside the represented map.
proof fn lemma_absent(s: Seq<(Identifier, u64)>, k: Seq<u8>)
    requires
        forall|i: int| 0 <= i < s.len() ==> s[i].0@ != k,
    ensures
        !map_of(s).contains_key(k),
{
}

/// Overwriting the entry at index `i` with an entry of the same key updates
/// the represented map at that key alone.
proof fn lemma_map_of_update(s: Seq<(Identifier, u64)>, i: int, e: (Identifier, u64))
    requires
        keys_unique(s),
        0 <= i < s.len(),
        e.0@ == s[i].0@,
    ensures
        keys_unique(s.update(i, e)),
        map_of(s.update(i, e)) == map_of(s).insert(e.0@, e.1),
{
    let ns = s.update(i, e);
    assert(forall|x: int| 0 <= x < ns.len() ==> ns[x].0@ == s[x].0@);
    assert(keys_unique(ns));
    let target = map_of(s).insert(e.0@, e.1);
    assert forall|k: Seq<u8>| map_of(ns).contains_key(k) == target.contains_key(k) by {
        if key_in(ns, k) {
            let j = choose|j: int| 0 <= j < ns.len() && ns[j].0@ == k;
            assert(s[j].0@ == k);
            assert(key_in(s, k));
        }
        if key_in(s, k) {
            let j = choose|j: int| 0 <= j < s.len() && s[j].0@ == k;
            assert(ns[j].0@ == k);
            assert(key_in(ns, k));
        }
    }
    assert forall|k: Seq<u8>| map_of(ns).contains_key(k) implies map_of(ns)[k] == target[k] by {
        if k == e.0@ {
            lemma_value_at(ns, i);
        } else {
            let j = choose|j: int| 0 <= j < ns.len() && ns[j].0@ == k;
            assert(j != i);
            lemma_value_at(ns, j);
            lemma_value_at(s, j);
        }
    }
    assert(map_of(ns) =~= target);
}

/// Appending an entry whose key no existing entry holds updates the
/// represented map at that key alone.
proof fn lemma_map_of_push(s: Seq<(Identifier, u64)>, e: (Identifier, u64))
    requires
        keys_unique(s),
        forall|i: int| 0 <= i < s.len() ==> s[i].0@ != e.0@,
    ensures
        keys_unique(s.push(e)),
        map_of(s.push(e)) == map_of(s).insert(e.0@, e.1),
{
    let ns = s.push(e);
    assert(forall|x: int| 0 <= x < s.len() ==> ns[x] == s[x]);
    assert(ns[s.len() as int] == e);
    assert(keys_unique(ns));
    let target = map_of(s).insert(e.0@, e.1);
    assert forall|k: Seq<u8>| map_of(ns).contains_key(k) == target.contains_key(k) by {
        if key_in(ns, k) && k != e.0@ {
            let j = choose|j: int| 0 <= j < ns.len() && ns[j].0@ == k;
            assert(j < s.len());
            assert(s[j].0@ == k);
            assert(key_in(s, k));
        }
        if key_in(s, k) {
            let j = choose|j: int| 0 <= j < s.len() && s[j].0@ == k;
            assert(ns[j].0@ == k);
            assert(key_in(ns, k));
        }
        assert(ns[s.len() as int].0@ == e.0@);
        assert(key_in(ns, e.0@));
    }
    assert forall|k: Seq<u8>| map_of(ns).contains_key(k) implies map_of(ns)[k] == target[k] by {
        if k == e.0@ {
            lemma_value_at(ns, s.len() as int);
        } else {
            let j = choose|j: int| 0 <= j < ns.len() && ns[j].0@ == k;
            assert(j < s.len());
            lemma_value_at(ns, j);
            lemma_value_at(s, j);
        }
    }
    assert(map_of(ns) =~= target);
}

impl View for RecordStore {
    type V = Map<Seq<u8>, u64>;

    closed spec fn view(&self) -> Map<Seq<u8>, u64> {
        map_of(self.entries@)
    }
}

impl RecordStore {
    /// Well-formed: at most one record per address.
    pub closed spec fn wf(&self) -> bool {
        keys_unique(self.entries@)
    }

    /// An empty store.
    pub fn new() -> (r: RecordStore)
        ensures
            r.wf(),
            r@ == Map::<Seq<u8>, u64>::empty(),
    {
        let r = RecordStore { entries: Vec::new() };
        proof {
            assert(r@ =~= Map::<Seq<u8>, u64>::empty());
        }
        r
    }

    /// The index of the entry holding key `k`, if one does.
    fn find_index(&self, k: &Identifier) -> (r: Option<usize>)
        ensures
            r matches Some(i) ==> i < self.entries@.len() && self.entries@[i as int].0@ == k@,
            (r is None) ==> forall|j: int| 0 <= j < self.entries@.len()
                ==> self.entries@[j].0@ != k@,
    {
        let n = self.entries.len();
        let mut i: usize = 0;
        while i < n
            invariant
                n == self.entries@.len(),
                0 <= i <= n,
                forall|j: int| 0 <= j < i ==> self.entries@[j].0@ != k@,
            decreases n - i,
        {
            if id_eq(&self.entries[i].0, k) {
                return Some(i);
            }
            i = i + 1;
        }
        None
    }

    /// Read the record at `k`, if present.
    pub fn get(&self, k: &Identifier) -> (r: Option<u64>)
        requires
            self.wf(),
        ensures
            r == if self@.contains_key(k@) {
                Some(self@[k@])
            } else {
                None::<u64>
            },
    {
        match self.find_index(k) {
            Some(i) => {
                proof {
                    lemma_value_at(self.entries@, i as int);
                }
                Some(self.entries[i].1)
            },
            None => {
                proof {
                    lemma_absent(self.entries@, k@);
                }
                None
            },
        }
    }

    /// True when a record exists at `k`.
    pub fn contains(&self, k: &Identifier) -> (r: bool)
        requires
            self.wf(),
        ensures
            r == self@.contains_key(k@),
    {
        self.get(k).is_some()
    }

    /// Write the record at `k`, creating it if absent and overwriting it if
    /// present.
    pub fn put(&mut self, k: &Identifier, v: u64)
        requires
            old(self).wf(),
        ensures
            final(self).wf(),
            final(self)@ == old(self)@.insert(k@, v),
    {
        match self.find_index(k) {
            Some(i) => {
                proof {
                    lemma_map_of_update(self.entries@, i as int, (*k, v));
                }
                self.entries.set(i, (*k, v));
            },
            None => {
                proof {
                    lemma_map_of_push(self.entries@, (*k, v));
                }
                self.entries.push((*k, v));
            },
        }
    }

    /// Create the record at `k` with value `v`; fails with `AlreadyExists`
    /// (and changes nothing) when a record is already there.
    pub fn create(&mut self, k: &Identifier, v: u64) -> (r: Result<(), ERC20Error>)
        requires
            old(self).wf(),
        ensures
            final(self).wf(),
            old(self)@.contains_key(k@) ==> r == Err::<(), ERC20Error>(ERC20Error::AlreadyExists)
                && final(self)@ == old(self)@,
            !old(self)@.contains_key(k@) ==> r == Ok::<(), ERC20Error>(())
                && final(self)@ == old(self)@.insert(k@, v),
    {
        if self.contains(k) {
            Err(ERC20Error::AlreadyExists)
        } else {
            self.put(k, v);
            Ok(())
        }
    }

    /// Create the record at `k` with value `v` if absent; an existing record
    /// is left as it is.
    pub fn create_if_absent(&mut self, k: &Identifier, v: u64)
        requires
            old(self).wf(),
        ensures
            final(self).wf(),
            final(self)@ == if old(self)@.contains_key(k@) {
                old(self)@
            } else {
                old(self)@.insert(k@, v)
            },
    {
        if !self.contains(k) {
            self.put(k, v);
        }
    }

    /// Overwrite the record at `k` with value `v`; fails with `NotFound`
    /// (and changes nothing) when no record is there.
    pub fn update(&mut self, k: &Identifier, v: u64) -> (r: Result<(), ERC20Error>)
        requires
            old(self).wf(),
        ensures
            final(self).wf(),
            old(self)@.contains_key(k@) ==> r == Ok::<(), ERC20Error>(())
                && final(self)@ == old(self)@.insert(k@, v),
            !old(self)@.contains_key(k@) ==> r == Err::<(), ERC20Error>(ERC20Error::NotFound)
                && final(self)@ == old(self)@,
    {
        if self.contains(k) {
            self.put(k, v);
            Ok(())
        } else {
            Err(ERC20Error::NotFound)
        }
    }
}

} // verus!
