use vstd::prelude::*;
use crate::types::{Status, StatusKind};

verus! {

/// The tracker key of a client: `"<chain_id>:<client_id>"`.
pub open spec fn tracker_key(chain_id: Seq<char>, client_id: Seq<char>) -> Seq<char> {
    chain_id + ":"@ + client_id
}

/// Builds the tracker key of a client.
pub fn client_key(chain_id: &str, client_id: &str) -> (r: String)
    ensures
        r@ == tracker_key(chain_id@, client_id@),
{
    let k = String::from_str(chain_id);
    let k = k.concat(":");
    k.concat(client_id)
}

/// The last status kind seen for each client key.
///
/// The only way to change it is [`StateTracker::has_changed`], which compares
/// and conditionally stores in one step.
pub struct StateTracker {
    entries: Vec<(String, StatusKind)>,
    seen: Ghost<Map<Seq<char>, StatusKind>>,
}

impl View for StateTracker {
    type V = Map<Seq<char>, StatusKind>;

    closed spec fn view(&self) -> Map<Seq<char>, StatusKind> {
        self.seen@
    }
}

impl StateTracker {
    pub closed spec fn wf(&self) -> bool {
        &&& self.seen@.dom().finite()
        &&& forall|i: int, j: int|
            0 <= i < j < self.entries@.len() ==> self.entries@[i].0@ != self.entries@[j].0@
        &&& forall|i: int|
            0 <= i < self.entries@.len() ==> {
                &&& #[trigger] self.seen@.contains_key(self.entries@[i].0@)
                &&& self.seen@[self.entries@[i].0@] == self.entries@[i].1
            }
        &&& forall|k: Seq<char>|
            #[trigger] self.seen@.contains_key(k) ==> exists|i: int|
                0 <= i < self.entries@.len() && self.entries@[i].0@ == k
    }

    /// A tracker that has seen no client.
    pub fn new() -> (r: StateTracker)
        ensures
            r.wf(),
            r@ == Map::<Seq<char>, StatusKind>::empty(),
            r@.dom().finite(),
    {
        StateTracker { entries: Vec::new(), seen: Ghost(Map::empty()) }
    }

    /// Whether `status` differs in kind from the last kind stored for `key`.
    ///
    /// An unseen key, or a different kind, is stored and reported as a
    /// change; the same kind leaves the tracker as it was.
    pub fn has_changed(&mut self, key: &str, status: &Status) -> (changed: bool)
        requires
            old(self).wf(),
        ensures
            final(self).wf(),
            final(self)@.dom().finite(),
            !old(self)@.contains_key(key@) ==> final(self)@.len() == old(self)@.len() + 1,
            changed == !(old(self)@.contains_key(key@) && old(self)@[key@] == status.kind_of()),
            changed ==> final(self)@ == old(self)@.insert(key@, status.kind_of()),
            !changed ==> final(self)@ == old(self)@,
    {
        let kind = status.kind();
        let wanted = String::from_str(key);
        let mut i: usize = 0;
        while i < self.entries.len()
            invariant
                self.wf(),
                self.entries@ == old(self).entries@,
                self.seen@ == old(self).seen@,
                wanted@ == key@,
                kind == status.kind_of(),
                i <= self.entries@.len(),
                forall|j: int| 0 <= j < i ==> self.entries@[j].0@ != key@,
            decreases self.entries@.len() - i,
        {
            if self.entries[i].0 == wanted {
                proof {
                    assert(self.seen@.contains_key(self.entries@[i as int].0@));
                    assert(self.entries@[i as int].0@ == key@);
                    assert(self.seen@[key@] == self.entries@[i as int].1);
                }
                if self.entries[i].1 == kind {
                    return false;
                }
                let name = self.entries[i].0.clone();
                let ghost before = self.seen@;
                let ghost earlier = self.entries@;
                self.entries.set(i, (name, kind));
                self.seen = Ghost(before.insert(key@, kind));
                proof {
                    assert forall|k: Seq<char>| #[trigger] self.seen@.contains_key(k) implies exists|j: int|
                        0 <= j < self.entries@.len() && self.entries@[j].0@ == k by {
                        if k != key@ {
                            assert(before.contains_key(k));
                            let j = choose|j: int| 0 <= j < earlier.len() && earlier[j].0@ == k;
                            assert(self.entries@[j].0@ == k);
                        } else {
                            assert(self.entries@[i as int].0@ == k);
                        }
                    }
                }
                return true;
            }
            i = i + 1;
        }
        let ghost before = self.seen@;
        let ghost earlier = self.entries@;
        proof {
            assert(!before.contains_key(key@));
        }
        self.entries.push((String::from_str(key), kind));
        self.seen = Ghost(before.insert(key@, kind));
        proof {
            assert forall|k: Seq<char>| #[trigger] self.seen@.contains_key(k) implies exists|j: int|
                0 <= j < self.entries@.len() && self.entries@[j].0@ == k by {
                if k != key@ {
                    assert(before.contains_key(k));
                    let j = choose|j: int| 0 <= j < earlier.len() && earlier[j].0@ == k;
                    assert(self.entries@[j].0@ == k);
                } else {
                    assert(self.entries@[self.entries@.len() - 1].0@ == k);
                }
            }
        }
        true
    }
}

} // verus!
