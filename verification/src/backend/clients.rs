//! The connections that a listener knows, by connection ID.
use crate::bytes::same_bytes;
use vstd::prelude::*;

verus! {

/// A map from connection IDs to whatever reaches the connection.
pub struct ClientMap<S> {
    entries: Vec<(Vec<u8>, S)>,
}

impl<S> ClientMap<S> {
    closed spec fn holds(self, id: Seq<u8>, i: int) -> bool {
        0 <= i < self.entries@.len() && self.entries@[i].0@ == id
    }

    closed spec fn position(self, id: Seq<u8>) -> int {
        choose|i: int| self.holds(id, i)
    }

    /// No connection ID occurs twice.
    pub closed spec fn wf(self) -> bool {
        forall|i: int, j: int|
            0 <= i < j < self.entries@.len() ==> (#[trigger] self.entries@[i]).0@ != (
            #[trigger] self.entries@[j]).0@
    }

    /// What each connection ID leads to.
    pub closed spec fn view(&self) -> Map<Seq<u8>, S> {
        Map::new(
            |id: Seq<u8>| exists|i: int| self.holds(id, i),
            |id: Seq<u8>| self.entries@[self.position(id)].1,
        )
    }

    proof fn lemma_held(self, id: Seq<u8>, i: int)
        requires
            self.wf(),
            self.holds(id, i),
        ensures
            self@.contains_key(id),
            self@[id] == self.entries@[i].1,
    {
        let j = self.position(id);
        assert(self.holds(id, j));
        if i < j {
            assert(self.entries@[i].0@ != self.entries@[j].0@);
        } else if j < i {
            assert(self.entries@[j].0@ != self.entries@[i].0@);
        }
    }

    /// A map without connections.
    pub fn new() -> (r: Self)
        ensures
            r.wf(),
            r@ == Map::<Seq<u8>, S>::empty(),
    {
        let r = ClientMap { entries: Vec::new() };
        assert(r@ =~= Map::<Seq<u8>, S>::empty());
        r
    }

    fn find(&self, id: &[u8]) -> (r: Option<usize>)
        ensures
            match r {
                Some(i) => self.holds(id@, i as int),
                None => !self@.contains_key(id@),
            },
    {
        let mut i: usize = 0;
        while i < self.entries.len()
            invariant
                i <= self.entries@.len(),
                forall|j: int| 0 <= j < i ==> (#[trigger] self.entries@[j]).0@ != id@,
            decreases self.entries@.len() - i,
        {
            if same_bytes(self.entries[i].0.as_slice(), id) {
                return Some(i);
            }
            i += 1;
        }
        assert forall|j: int| !self.holds(id@, j) by {
            if 0 <= j < self.entries@.len() {
                assert(self.entries@[j].0@ != id@);
            }
        }
        None
    }

    /// Whether the connection ID is known.
    pub fn contains_key(&self, id: &[u8]) -> (r: bool)
        requires
            self.wf(),
        ensures
            r == self@.contains_key(id@),
    {
        match self.find(id) {
            Some(i) => {
                proof {
                    self.lemma_held(id@, i as int);
                }
                true
            },
            None => false,
        }
    }

    /// What the connection ID leads to.
    pub fn get(&self, id: &[u8]) -> (r: Option<&S>)
        requires
            self.wf(),
        ensures
            match r {
                Some(sender) => self@.contains_key(id@) && self@[id@] == *sender,
                None => !self@.contains_key(id@),
            },
    {
        match self.find(id) {
            Some(i) => {
                proof {
                    self.lemma_held(id@, i as int);
                }
                Some(&self.entries[i].1)
            },
            None => None,
        }
    }

    /// Makes the connection ID lead to `sender`.
    pub fn insert(&mut self, id: Vec<u8>, sender: S)
        requires
            old(self).wf(),
        ensures
            final(self).wf(),
            final(self)@ == old(self)@.insert(id@, sender),
    {
        let ghost before = *self;
        let ghost key = id@;
        match self.find(id.as_slice()) {
            Some(i) => {
                self.entries.set(i, (id, sender));
                proof {
                    assert(self.entries@ =~= before.entries@.update(i as int, (id, sender)));
                    assert forall|k: Seq<u8>, j: int| self.holds(k, j) == before.holds(k, j) by {}
                    assert(self.wf());
                    self.lemma_held(key, i as int);
                    assert forall|k: Seq<u8>| self@.contains_key(k) == before@.insert(
                        key,
                        sender,
                    ).contains_key(k) by {
                        if before@.contains_key(k) {
                            let j = before.position(k);
                            assert(before.holds(k, j));
                            assert(self.holds(k, j));
                        }
                        if self@.contains_key(k) {
                            let j = self.position(k);
                            assert(self.holds(k, j));
                            assert(before.holds(k, j));
                        }
                    }
                    assert forall|k: Seq<u8>| #[trigger] self@.contains_key(k) implies self@[k]
                        == before@.insert(key, sender)[k] by {
                        let j = self.position(k);
                        assert(self.holds(k, j));
                        self.lemma_held(k, j);
                        if k != key {
                            assert(before.holds(k, j));
                            before.lemma_held(k, j);
                        }
                    }
                    assert(self@ =~= before@.insert(key, sender));
                }
            },
            None => {
                self.entries.push((id, sender));
                proof {
                    let n = before.entries@.len() as int;
                    assert(self.entries@ =~= before.entries@.push((id, sender)));
                    assert forall|j: int| 0 <= j < n implies (#[trigger] self.entries@[j]).0@
                        != key by {
                        assert(before.entries@[j] == self.entries@[j]);
                        if before.entries@[j].0@ == key {
                            assert(before.holds(key, j));
                        }
                    }
                    assert(self.wf());
                    assert(self.holds(key, n));
                    self.lemma_held(key, n);
                    assert forall|k: Seq<u8>| self@.contains_key(k) == before@.insert(
                        key,
                        sender,
                    ).contains_key(k) by {
                        if before@.contains_key(k) {
                            let j = before.position(k);
                            assert(before.holds(k, j));
                            assert(self.holds(k, j));
                        }
                        if self@.contains_key(k) && k != key {
                            let j = self.position(k);
                            assert(self.holds(k, j));
                            assert(before.holds(k, j));
                        }
                    }
                    assert forall|k: Seq<u8>| #[trigger] self@.contains_key(k) implies self@[k]
                        == before@.insert(key, sender)[k] by {
                        if k != key {
                            let j = self.position(k);
                            assert(self.holds(k, j));
                            assert(before.holds(k, j));
                            self.lemma_held(k, j);
                            before.lemma_held(k, j);
                        }
                    }
                    assert(self@ =~= before@.insert(key, sender));
                }
            },
        }
    }
}

} // verus!
