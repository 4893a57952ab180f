//! The session registry: at most one session handle per identifier.

use vstd::prelude::*;
use crate::text::str_eq;

verus! {

/// A mapping from session identifiers to session handles of type `H`.
pub struct SessionRegistry<H> {
    ids: Vec<String>,
    handles: Vec<H>,
}

impl<H> SessionRegistry<H> {
    /// The position of an identifier among the entries, if it has one.
    spec fn position(self, id: Seq<char>) -> int {
        choose|i: int| 0 <= i < self.ids@.len() && self.ids@[i]@ == id
    }

    /// Whether some entry has this identifier.
    spec fn has(self, id: Seq<char>) -> bool {
        exists|i: int| 0 <= i < self.ids@.len() && self.ids@[i]@ == id
    }

    /// The registry's invariant: one handle for each identifier, and no
    /// identifier twice.
    pub closed spec fn wf(self) -> bool {
        &&& self.ids@.len() == self.handles@.len()
        &&& forall|i: int, j: int|
            0 <= i < j < self.ids@.len() ==> self.ids@[i]@ != self.ids@[j]@
    }

    /// The registry as a map from identifiers to handles.
    pub closed spec fn view(self) -> Map<Seq<char>, H> {
        Map::new(|id: Seq<char>| self.has(id), |id: Seq<char>| self.handles@[self.position(id)])
    }

    /// The entry at position `i` is what the map holds for its identifier.
    proof fn lemma_entry(self, i: int)
        requires
            self.wf(),
            0 <= i < self.ids@.len(),
        ensures
            self@.contains_key(self.ids@[i]@),
            self@[self.ids@[i]@] == self.handles@[i],
            self.position(self.ids@[i]@) == i,
    {
    }

    /// An empty registry.
    pub fn new() -> (registry: SessionRegistry<H>)
        ensures
            registry.wf(),
            registry@ == Map::<Seq<char>, H>::empty(),
    {
        let registry = SessionRegistry { ids: Vec::new(), handles: Vec::new() };
        registry
    }

    /// The number of sessions.
    pub fn len(&self) -> (n: usize)
        requires
            self.wf(),
        ensures
            n == self@.dom().len(),
            self@.dom().finite(),
    {
        proof {
            self.lemma_domain_size();
        }
        self.ids.len()
    }

    /// The map's domain is finite and as large as the list of entries.
    proof fn lemma_domain_size(self)
        requires
            self.wf(),
        ensures
            self@.dom().finite(),
            self@.dom().len() == self.ids@.len(),
    {
        let keys = self.ids@.map_values(|s: String| s@);
        keys.unique_seq_to_set();
        assert(keys.to_set() =~= self@.dom()) by {
            assert forall|id: Seq<char>| self@.dom().contains(id) implies keys.to_set().contains(
                id,
            ) by {
                let i = self.position(id);
                assert(keys[i] == id);
            }
        }
    }

    /// Drops every session.
    pub fn clear(&mut self)
        ensures
            final(self).wf(),
            final(self)@ == Map::<Seq<char>, H>::empty(),
    {
        self.ids.clear();
        self.handles.clear();
    }

    /// Finds the position of an identifier.
    fn find(&self, id: &str) -> (at: Option<usize>)
        requires
            self.wf(),
        ensures
            match at {
                Some(i) => i < self.ids@.len() && self.ids@[i as int]@ == id@,
                None => !self.has(id@),
            },
    {
        let mut i: usize = 0;
        while i < self.ids.len()
            invariant
                i <= self.ids@.len(),
                forall|j: int| 0 <= j < i ==> self.ids@[j]@ != id@,
            decreases self.ids@.len() - i,
        {
            if str_eq(self.ids[i].as_str(), id) {
                return Some(i);
            }
            i = i + 1;
        }
        None
    }

    /// Whether a session with this identifier is registered.
    pub fn contains(&self, id: &str) -> (present: bool)
        requires
            self.wf(),
        ensures
            present == self@.contains_key(id@),
    {
        self.find(id).is_some()
    }

    /// The handle of a session, if the identifier is registered.
    pub fn get(&self, id: &str) -> (handle: Option<&H>)
        requires
            self.wf(),
        ensures
            match handle {
                Some(h) => self@.contains_key(id@) && *h == self@[id@],
                None => !self@.contains_key(id@),
            },
    {
        match self.find(id) {
            Some(i) => {
                proof {
                    self.lemma_entry(i as int);
                }
                Some(&self.handles[i])
            },
            None => None,
        }
    }

    /// Registers `handle` under `id` unless the identifier is taken. Says
    /// whether it did; an entry that exists is left as it is.
    pub fn insert_if_absent(&mut self, id: String, handle: H) -> (inserted: bool)
        requires
            old(self).wf(),
        ensures
            final(self).wf(),
            inserted == !old(self)@.contains_key(id@),
            final(self)@ == (if inserted {
                old(self)@.insert(id@, handle)
            } else {
                old(self)@
            }),
    {
        if self.find(id.as_str()).is_some() {
            return false;
        }
        let ghost before = *self;
        self.ids.push(id);
        self.handles.push(handle);
        proof {
            let after = *self;
            let n = before.ids@.len() as int;
            assert(after@ =~= before@.insert(id@, handle)) by {
                assert forall|key: Seq<char>| #[trigger]
                    after@.contains_key(key) == before@.insert(id@, handle).contains_key(key) by {
                    if before.has(key) {
                        let i = before.position(key);
                        assert(after.ids@[i]@ == key);
                    }
                    if key == id@ {
                        assert(after.ids@[n]@ == key);
                    }
                }
            }
        }
        true
    }

    /// Removes the session `id` if it is dead: if its PTY has exited and
    /// its broadcast source has no subscriber left. Says whether it removed
    /// an entry.
    pub fn drop_if_dead(&mut self, id: &str, pty_exited: bool, subscribers: usize) -> (removed:
        bool)
        requires
            old(self).wf(),
        ensures
            final(self).wf(),
            removed == (old(self)@.contains_key(id@) && session_dead(pty_exited, subscribers as nat)),
            final(self)@ == (if removed {
                old(self)@.remove(id@)
            } else {
                old(self)@
            }),
    {
        if !pty_exited || subscribers != 0 {
            return false;
        }
        let at: Option<usize> = self.find(id);
        match at {
            None => false,
            Some(i) => {
                let ghost before = *self;
                self.ids.remove(i);
                self.handles.remove(i);
                proof {
                    let after = *self;
                    let k = i as int;
                    before.lemma_entry(k);
                    assert(after@ =~= before@.remove(id@)) by {
                        assert forall|key: Seq<char>| #[trigger]
                            after@.contains_key(key) == before@.remove(id@).contains_key(key) by {
                            if before.has(key) && key != id@ {
                                let b = before.position(key);
                                let b1 = if b < k { b } else { b - 1 };
                                assert(after.ids@[b1] == before.ids@[b]);
                            }
                        }
                    }
                }
                true
            },
        }
    }
}

/// Whether a session may be collected: its PTY has exited and no transport
/// is subscribed.
pub open spec fn session_dead(pty_exited: bool, subscribers: nat) -> bool {
    pty_exited && subscribers == 0
}

/// Two callers with the same identifier share one session: once a handle is
/// registered under an identifier, registering another under it changes
/// nothing, and the first handle stays.
pub proof fn lemma_one_session_per_id<H>(before: Map<Seq<char>, H>, id: Seq<char>, first: H, second: H)
    ensures
        ({
            let once = if before.contains_key(id) {
                before
            } else {
                before.insert(id, first)
            };
            let twice = if once.contains_key(id) {
                once
            } else {
                once.insert(id, second)
            };
            &&& twice == once
            &&& !before.contains_key(id) ==> twice[id] == first
            &&& before.contains_key(id) ==> twice[id] == before[id]
        }),
{
}

} // verus!
