use vstd::prelude::*;

use crate::proposal::{Proposal, ProposalModel};
use std::collections::BTreeMap;

verus! {

/// The proposal store: the sole source of truth, a mapping from
/// identifier to proposal record.
///
/// A vector of the stored identifiers is kept beside the map so that
/// listing every record needs no reasoning about map iteration order.
pub struct ProposalStore {
    map: BTreeMap<u64, Proposal>,
    ids: Vec<u64>,
}

impl View for ProposalStore {
    type V = Map<u64, ProposalModel>;

    closed spec fn view(&self) -> Map<u64, ProposalModel> {
        self.map@.map_values(|p: Proposal| p@)
    }
}

impl ProposalStore {
    /// Internal consistency: `ids` lists each stored key exactly once,
    /// and every record sits under its own identifier.
    pub closed spec fn wf(&self) -> bool {
        &&& forall|i: int|
            0 <= i < self.ids@.len() ==> self.map@.contains_key(#[trigger] self.ids@[i])
        &&& forall|i: int, j: int|
            0 <= i < j < self.ids@.len() ==> self.ids@[i] != self.ids@[j]
        &&& forall|k: u64|
            #[trigger] self.map@.contains_key(k) ==> exists|i: int|
                0 <= i < self.ids@.len() && self.ids@[i] == k
        &&& forall|k: u64| #[trigger] self.map@.contains_key(k) ==> self.map@[k]@.id == k
    }

    pub fn new() -> (r: Self)
        ensures
            r.wf(),
            r@ == Map::<u64, ProposalModel>::empty(),
    {
        let r = ProposalStore { map: BTreeMap::new(), ids: Vec::new() };
        proof {
            assert(r@ =~= Map::<u64, ProposalModel>::empty());
        }
        r
    }

    /// A copy of the record stored under `id`, or `None` if there is none.
    pub fn get(&self, id: u64) -> (r: Option<Proposal>)
        requires
            self.wf(),
        ensures
            match r {
                Some(p) => self@.contains_key(id) && p@ == self@[id] && p@.id == id,
                None => !self@.contains_key(id),
            },
    {
        match self.map.get(&id) {
            Some(p) => Some(p.clone()),
            None => None,
        }
    }

    /// Persists `p` under its own identifier, overwriting any prior
    /// record at that key.
    pub fn insert_or_replace(&mut self, p: Proposal)
        requires
            old(self).wf(),
        ensures
            final(self).wf(),
            final(self)@ == old(self)@.insert(p@.id, p@),
    {
        let id = p.id;
        if !self.map.contains_key(&id) {
            proof {
                assert forall|i: int| 0 <= i < self.ids@.len() implies self.ids@[i] != id by {
                    assert(self.map@.contains_key(self.ids@[i]));
                }
            }
            self.ids.push(id);
        }
        self.map.insert(id, p);
        proof {
            assert(self@ =~= old(self)@.insert(id, p@));
            assert forall|k: u64| #[trigger] self.map@.contains_key(k) implies exists|i: int|
                0 <= i < self.ids@.len() && self.ids@[i] == k by {
                if k == id {
                    assert(self.ids@[self.ids@.len() - 1] == id || old(self).map@.contains_key(k));
                }
                if old(self).map@.contains_key(k) {
                    let i = choose|i: int|
                        0 <= i < old(self).ids@.len() && old(self).ids@[i] == k;
                    assert(0 <= i < self.ids@.len() && self.ids@[i] == k);
                }
            }
        }
    }

    /// A copy of every stored record.  The contract pins the result as a
    /// duplicate-free family covering exactly the store's contents; it
    /// promises nothing of the order.
    pub fn list_all(&self) -> (r: Vec<Proposal>)
        requires
            self.wf(),
        ensures
            forall|i: int|
                0 <= i < r@.len() ==> self@.contains_key(#[trigger] r@[i]@.id) && r@[i]@
                    == self@[r@[i]@.id],
            forall|i: int, j: int| 0 <= i < j < r@.len() ==> r@[i]@.id != r@[j]@.id,
            forall|k: u64|
                #[trigger] self@.contains_key(k) ==> exists|i: int|
                    0 <= i < r@.len() && r@[i]@.id == k,
    {
        let mut out: Vec<Proposal> = Vec::new();
        let mut i: usize = 0;
        while i < self.ids.len()
            invariant
                self.wf(),
                i <= self.ids@.len(),
                out@.len() == i,
                forall|j: int| 0 <= j < i ==> #[trigger] out@[j]@.id == self.ids@[j],
                forall|j: int|
                    0 <= j < i ==> self@.contains_key(#[trigger] out@[j]@.id) && out@[j]@
                        == self@[out@[j]@.id],
            decreases self.ids@.len() - i,
        {
            let id = self.ids[i];
            match self.map.get(&id) {
                Some(p) => {
                    out.push(p.clone());
                },
                None => {
                    proof {
                        assert(self.map@.contains_key(id));
                        assert(false);
                    }
                },
            }
            i = i + 1;
        }
        proof {
            assert forall|k: u64| #[trigger] self@.contains_key(k) implies exists|i: int|
                0 <= i < out@.len() && out@[i]@.id == k by {
                let i = choose|i: int| 0 <= i < self.ids@.len() && self.ids@[i] == k;
                assert(out@[i]@.id == k);
            }
        }
        out
    }
}

} // verus!
