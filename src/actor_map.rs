use vstd::prelude::*;
use crate::actor::{ActorId, lemma_actor_eq};

verus! {

/// A finite map keyed by account address, kept as a list of distinct keys
/// in insertion order.
pub struct ActorMap<V> {
    entries: Vec<(ActorId, V)>,
    contents: Ghost<Map<ActorId, V>>,
}

impl<V> View for ActorMap<V> {
    type V = Map<ActorId, V>;

    closed spec fn view(&self) -> Map<ActorId, V> {
        self.contents@
    }
}

impl<V> ActorMap<V> {
    #[verifier::type_invariant]
    closed spec fn well_formed(&self) -> bool {
        Self::consistent(self.entries@, self.contents@)
    }

    /// Every listed entry is in the map with its value, every key of the
    /// map is listed, and no key is listed twice.
    closed spec fn consistent(s: Seq<(ActorId, V)>, m: Map<ActorId, V>) -> bool {
        &&& forall|i: int|
            0 <= i < s.len() ==> #[trigger] m.contains_key(s[i].0) && m[s[i].0] == s[i].1
        &&& forall|k: ActorId| #[trigger]
            m.contains_key(k) ==> exists|i: int| 0 <= i < s.len() && s[i].0 == k
        &&& Self::keys_distinct(s)
    }

    closed spec fn keys_distinct(s: Seq<(ActorId, V)>) -> bool {
        forall|i: int, j: int|
            0 <= i < s.len() && 0 <= j < s.len() && i != j ==> s[i].0 != s[j].0
    }

    pub fn new() -> (r: ActorMap<V>)
        ensures
            r@ == Map::<ActorId, V>::empty(),
    {
        ActorMap { entries: Vec::new(), contents: Ghost(Map::empty()) }
    }

    /// Number of keys.
    pub fn len(&self) -> (r: usize)
        ensures
            r as nat == self@.dom().len(),
    {
        proof {
            use_type_invariant(self);
            self.lemma_dom_len();
        }
        self.entries.len()
    }

    proof fn lemma_dom_len(&self)
        requires
            self.well_formed(),
        ensures
            self.contents@.dom().finite(),
            self.contents@.dom().len() == self.entries@.len(),
    {
        let keys = self.entries@.map_values(|e: (ActorId, V)| e.0);
        assert(keys.no_duplicates()) by {
            assert forall|i: int, j: int|
                0 <= i < keys.len() && 0 <= j < keys.len() && i != j implies keys[i]
                != keys[j] by {
                assert(keys[i] == self.entries@[i].0);
                assert(keys[j] == self.entries@[j].0);
            }
        }
        assert(self.contents@.dom() =~= keys.to_set()) by {
            assert forall|k: ActorId| #[trigger] self.contents@.dom().contains(k) implies keys.to_set().contains(k) by {
                let i = choose|i: int| 0 <= i < self.entries@.len() && self.entries@[i].0 == k;
                assert(keys[i] == k);
            }
            assert forall|k: ActorId| #[trigger] keys.to_set().contains(k) implies self.contents@.dom().contains(k) by {
                let i = choose|i: int| 0 <= i < keys.len() && keys[i] == k;
                assert(self.contents@.contains_key(self.entries@[i].0));
            }
        }
        keys.unique_seq_to_set();
    }

    /// Position of `k` among the entries, if present.
    fn find(&self, k: &ActorId) -> (r: Option<usize>)
        ensures
            r is None <==> !self@.contains_key(*k),
            r matches Some(i) ==> i < self.entries@.len() && self.entries@[i as int].0 == *k,
    {
        proof {
            use_type_invariant(self);
        }
        let mut i: usize = 0;
        while i < self.entries.len()
            invariant
                i <= self.entries@.len(),
                self.well_formed(),
                forall|j: int| 0 <= j < i ==> self.entries@[j].0 != *k,
            decreases self.entries@.len() - i,
        {
            let e = &self.entries[i];
            if e.0 == *k {
                proof {
                    lemma_actor_eq(e.0, *k);
                    assert(self.contents@.contains_key(self.entries@[i as int].0));
                }
                return Some(i);
            }
            proof {
                lemma_actor_eq(e.0, *k);
            }
            i = i + 1;
        }
        proof {
            if self@.contains_key(*k) {
                let j = choose|j: int| 0 <= j < self.entries@.len() && self.entries@[j].0 == *k;
                assert(self.entries@[j].0 != *k);
            }
        }
        None
    }

    pub fn contains_key(&self, k: &ActorId) -> (r: bool)
        ensures
            r == self@.contains_key(*k),
    {
        self.find(k).is_some()
    }

    pub fn get(&self, k: &ActorId) -> (r: Option<&V>)
        ensures
            r is Some == self@.contains_key(*k),
            r matches Some(v) ==> *v == self@[*k],
    {
        proof {
            use_type_invariant(self);
        }
        match self.find(k) {
            Some(i) => Some(&self.entries[i].1),
            None => None,
        }
    }

    pub fn insert(&mut self, k: ActorId, v: V)
        ensures
            final(self)@ == old(self)@.insert(k, v),
    {
        proof {
            use_type_invariant(&*self);
        }
        let found = self.find(&k);
        let mut taken = ActorMap::new();
        std::mem::swap(&mut taken, self);
        let ActorMap { mut entries, contents } = taken;
        let ghost old_entries = entries@;
        let ghost new_contents = contents@.insert(k, v);
        match found {
            Some(i) => {
                entries.set(i, (k, v));
                proof {
                    assert forall|a: int, b: int|
                        0 <= a < entries@.len() && 0 <= b < entries@.len() && a != b
                        implies entries@[a].0 != entries@[b].0 by {
                        assert(old_entries[a].0 != old_entries[b].0);
                    }
                    assert forall|a: int|
                        0 <= a < entries@.len() implies #[trigger] new_contents.contains_key(
                        entries@[a].0,
                    ) && new_contents[entries@[a].0] == entries@[a].1 by {
                        if a != i {
                            assert(old_entries[a].0 != old_entries[i as int].0);
                        }
                    }
                    assert forall|key: ActorId| #[trigger]
                        new_contents.contains_key(key) implies exists|a: int|
                        0 <= a < entries@.len() && entries@[a].0 == key by {
                        if key != k {
                            let a = choose|a: int|
                                0 <= a < old_entries.len() && old_entries[a].0 == key;
                            assert(entries@[a].0 == key);
                        } else {
                            assert(entries@[i as int].0 == key);
                        }
                    }
                }
            },
            None => {
                entries.push((k, v));
                proof {
                    let n = old_entries.len() as int;
                    assert forall|a: int, b: int|
                        0 <= a < entries@.len() && 0 <= b < entries@.len() && a != b
                        implies entries@[a].0 != entries@[b].0 by {
                        if a < n && b < n {
                            assert(old_entries[a].0 != old_entries[b].0);
                        } else if a < n {
                            assert(contents@.contains_key(old_entries[a].0));
                        } else {
                            assert(contents@.contains_key(old_entries[b].0));
                        }
                    }
                    assert forall|a: int|
                        0 <= a < entries@.len() implies #[trigger] new_contents.contains_key(
                        entries@[a].0,
                    ) && new_contents[entries@[a].0] == entries@[a].1 by {
                        if a < n {
                            assert(old_entries[a].0 != k);
                        }
                    }
                    assert forall|key: ActorId| #[trigger]
                        new_contents.contains_key(key) implies exists|a: int|
                        0 <= a < entries@.len() && entries@[a].0 == key by {
                        if key != k {
                            let a = choose|a: int|
                                0 <= a < old_entries.len() && old_entries[a].0 == key;
                            assert(entries@[a].0 == key);
                        } else {
                            assert(entries@[n].0 == key);
                        }
                    }
                }
            },
        }
        proof {
            assert(Self::keys_distinct(entries@));
            assert(Self::consistent(entries@, new_contents));
        }
        let rebuilt = ActorMap { entries, contents: Ghost(new_contents) };
        *self = rebuilt;
    }
}

} // verus!
