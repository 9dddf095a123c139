//! The registry of drops: one drop per key, keyed by the key's text form.
use vstd::prelude::*;

use crate::drop_types::DropType;
use crate::error::DropError;

verus! {

/// A map from a public key to the drop that the key may claim. Being in the
/// registry is what makes a drop claimable: a claim removes it.
pub struct Registry {
    keys: Vec<String>,
    drops: Vec<DropType>,
    contents: Ghost<Map<Seq<char>, DropType>>,
}

impl View for Registry {
    type V = Map<Seq<char>, DropType>;

    closed spec fn view(&self) -> Map<Seq<char>, DropType> {
        self.contents@
    }
}

impl Registry {
    /// The two vectors hold the map's entries, each key once.
    pub closed spec fn wf(&self) -> bool {
        &&& self.keys.len() == self.drops.len()
        &&& forall|i: int, j: int|
            0 <= i < self.keys.len() && 0 <= j < self.keys.len() && i != j
                ==> self.keys[i]@ != self.keys[j]@
        &&& forall|i: int|
            0 <= i < self.keys.len() ==> self.contents@.contains_key(#[trigger] self.keys[i]@)
                && self.contents@[self.keys[i]@] == self.drops[i]
        &&& forall|k: Seq<char>|
            #[trigger] self.contents@.contains_key(k) ==> exists|i: int|
                0 <= i < self.keys.len() && self.keys[i]@ == k
    }

    pub fn new() -> (r: Registry)
        ensures
            r.wf(),
            r@ == Map::<Seq<char>, DropType>::empty(),
    {
        Registry { keys: Vec::new(), drops: Vec::new(), contents: Ghost(Map::empty()) }
    }

    /// The number of drops held.
    pub fn len(&self) -> (r: usize)
        requires
            self.wf(),
        ensures
            r == self@.dom().len(),
    {
        proof {
            self.lemma_dom_is_keys();
        }
        self.keys.len()
    }

    proof fn lemma_dom_is_keys(&self)
        requires
            self.wf(),
        ensures
            self@.dom().len() == self.keys.len(),
    {
        let ks = self.keys@.map_values(|s: String| s@);
        assert forall|i: int, j: int| 0 <= i < ks.len() && 0 <= j < ks.len() && i != j implies ks[i]
            != ks[j] by {}
        ks.unique_seq_to_set();
        assert(ks.to_set() =~= self@.dom()) by {
            assert forall|k: Seq<char>| ks.to_set().contains(k) implies self@.dom().contains(k) by {
                let i = choose|i: int| 0 <= i < ks.len() && ks[i] == k;
                assert(self.contents@.contains_key(self.keys[i]@));
            }
            assert forall|k: Seq<char>| self@.dom().contains(k) implies ks.to_set().contains(k) by {
                assert(self.contents@.contains_key(k));
                let i = choose|i: int| 0 <= i < self.keys.len() && self.keys[i]@ == k;
                assert(ks[i] == k);
            }
        }
    }

    fn find(&self, key: &String) -> (r: Option<usize>)
        requires
            self.wf(),
        ensures
            match r {
                Some(i) => i < self.keys.len() && self.keys[i as int]@ == key@,
                None => !self@.contains_key(key@),
            },
    {
        let mut i: usize = 0;
        while i < self.keys.len()
            invariant
                self.wf(),
                i <= self.keys.len(),
                forall|j: int| 0 <= j < i ==> self.keys[j]@ != key@,
            decreases self.keys.len() - i,
        {
            if self.keys[i] == *key {
                return Some(i);
            }
            i = i + 1;
        }
        proof {
            if self@.contains_key(key@) {
                assert(self.contents@.contains_key(key@));
            }
        }
        None
    }

    /// The drop registered under `key`, if any.
    pub fn lookup(&self, key: &String) -> (r: Option<&DropType>)
        requires
            self.wf(),
        ensures
            match r {
                Some(d) => self@.contains_key(key@) && *d == self@[key@],
                None => !self@.contains_key(key@),
            },
    {
        match self.find(key) {
            Some(i) => Some(&self.drops[i]),
            None => None,
        }
    }

    /// Registers `drop` under `key`; refused where `key` already has a drop,
    /// so that escrowed funds are never overwritten.
    pub fn create(&mut self, key: String, drop: DropType) -> (r: Result<(), DropError>)
        requires
            old(self).wf(),
        ensures
            final(self).wf(),
            match r {
                Ok(()) => !old(self)@.contains_key(key@) && final(self)@ == old(self)@.insert(
                    key@,
                    drop,
                ),
                Err(e) => e == DropError::DuplicateKey && old(self)@.contains_key(key@)
                    && final(self)@ == old(self)@,
            },
    {
        if self.find(&key).is_some() {
            return Err(DropError::DuplicateKey);
        }
        let ghost k = key@;
        let ghost old_contents = self.contents@;
        let ghost old_keys = self.keys@;
        self.contents = Ghost(self.contents@.insert(k, drop));
        self.keys.push(key);
        self.drops.push(drop);
        proof {
            let n = old_keys.len() as int;
            assert(self.keys[n]@ == k);
            assert forall|kk: Seq<char>| #[trigger] self.contents@.contains_key(kk) implies exists|
                i: int,
            | 0 <= i < self.keys.len() && self.keys[i]@ == kk by {
                if kk != k {
                    assert(old_contents.contains_key(kk));
                    let i = choose|i: int| 0 <= i < old_keys.len() && old_keys[i]@ == kk;
                    assert(self.keys[i]@ == kk);
                }
            }
        }
        Ok(())
    }

    /// Replaces the drop under `key`; refused where `key` has none.
    pub fn update(&mut self, key: &String, drop: DropType) -> (r: Result<(), DropError>)
        requires
            old(self).wf(),
        ensures
            final(self).wf(),
            match r {
                Ok(()) => old(self)@.contains_key(key@) && final(self)@ == old(self)@.insert(
                    key@,
                    drop,
                ),
                Err(e) => e == DropError::MissingDrop && !old(self)@.contains_key(key@)
                    && final(self)@ == old(self)@,
            },
    {
        match self.find(key) {
            None => Err(DropError::MissingDrop),
            Some(i) => {
                let ghost old_contents = self.contents@;
                self.contents = Ghost(self.contents@.insert(key@, drop));
                self.drops.set(i, drop);
                proof {
                    assert forall|kk: Seq<char>| #[trigger]
                        self.contents@.contains_key(kk) implies exists|j: int|
                        0 <= j < self.keys.len() && self.keys[j]@ == kk by {
                        assert(old_contents.contains_key(kk));
                        let j = choose|j: int| 0 <= j < self.keys.len() && self.keys[j]@ == kk;
                        assert(self.keys[j]@ == kk);
                    }
                }
                Ok(())
            },
        }
    }

    /// Takes the drop under `key` out of the registry; refused where `key` has none.
    pub fn remove(&mut self, key: &String) -> (r: Result<DropType, DropError>)
        requires
            old(self).wf(),
        ensures
            final(self).wf(),
            match r {
                Ok(d) => old(self)@.contains_key(key@) && d == old(self)@[key@] && final(self)@
                    == old(self)@.remove(key@),
                Err(e) => e == DropError::MissingDrop && !old(self)@.contains_key(key@)
                    && final(self)@ == old(self)@,
            },
    {
        match self.find(key) {
            None => Err(DropError::MissingDrop),
            Some(i) => {
                let ghost old_contents = self.contents@;
                let ghost old_keys = self.keys@;
                let ghost old_drops = self.drops@;
                let ghost last = old_keys.len() - 1;
                self.contents = Ghost(self.contents@.remove(key@));
                let _k = self.keys.swap_remove(i);
                let d = self.drops.swap_remove(i);
                proof {
                    assert forall|j: int| 0 <= j < self.keys.len() implies self.contents@.contains_key(
                        #[trigger] self.keys[j]@,
                    ) && self.contents@[self.keys[j]@] == self.drops[j] by {
                        if j == i {
                            assert(old_keys[last]@ != old_keys[i as int]@);
                            assert(self.keys[j] == old_keys[last]);
                            assert(old_contents.contains_key(old_keys[last]@));
                        } else {
                            assert(old_keys[j]@ != old_keys[i as int]@);
                            assert(self.keys[j] == old_keys[j]);
                            assert(old_contents.contains_key(old_keys[j]@));
                        }
                    }
                    assert forall|a: int, b: int|
                        0 <= a < self.keys.len() && 0 <= b < self.keys.len() && a != b implies
                        self.keys[a]@ != self.keys[b]@ by {
                        let oa = if a == i { last } else { a };
                        let ob = if b == i { last } else { b };
                        assert(old_keys[oa]@ != old_keys[ob]@);
                    }
                    assert forall|kk: Seq<char>| #[trigger]
                        self.contents@.contains_key(kk) implies exists|j: int|
                        0 <= j < self.keys.len() && self.keys[j]@ == kk by {
                        assert(old_contents.contains_key(kk));
                        let j = choose|j: int| 0 <= j < old_keys.len() && old_keys[j]@ == kk;
                        if j == last {
                            assert(self.keys[i as int]@ == kk);
                        } else {
                            assert(self.keys[j]@ == kk);
                        }
                    }
                }
                Ok(d)
            },
        }
    }
}

} // verus!
