//! The registry of thread-safe callback handles a context keeps while it is
//! alive. The engine delivers events from its own threads; each handle the
//! binding hands to the engine is recorded here under a randomly drawn
//! identifier, so that it can be found again and released — singly, or all at
//! once when the context reaches a terminal state — instead of dangling into a
//! torn-down managed object.

use vstd::prelude::*;

verus! {

/// True when no two entries of `s` carry the same identifier.
pub open spec fn unique_ids<T>(s: Seq<(u128, T)>) -> bool {
    forall|i: int, j: int| 0 <= i < j < s.len() ==> s[i].0 != s[j].0
}

/// True when some entry of `s` carries the identifier `id`.
pub open spec fn has_id<T>(s: Seq<(u128, T)>, id: u128) -> bool {
    exists|i: int| 0 <= i < s.len() && s[i].0 == id
}

/// The position of the entry of `s` that carries `id`, when there is one.
pub open spec fn id_index<T>(s: Seq<(u128, T)>, id: u128) -> int {
    choose|i: int| 0 <= i < s.len() && s[i].0 == id
}

/// The handles of `s`, in entry order, without their identifiers.
pub open spec fn handles_of<T>(s: Seq<(u128, T)>) -> Seq<T> {
    s.map_values(|p: (u128, T)| p.1)
}

/// When identifiers are unique, a position found to carry `id` is the one
/// `id_index` picks.
proof fn lemma_found_index_is_id_index<T>(s: Seq<(u128, T)>, id: u128, i: int)
    requires
        unique_ids(s),
        0 <= i < s.len(),
        s[i].0 == id,
    ensures
        has_id(s, id),
        id_index(s, id) == i,
{
    assert(has_id(s, id)) by {
        assert(s[i].0 == id);
    }
    let j = id_index(s, id);
    assert(0 <= j < s.len() && s[j].0 == id);
    if j < i {
        assert(s[j].0 != s[i].0);
    } else if j > i {
        assert(s[i].0 != s[j].0);
    }
}

/// Relies on uuid::Uuid::new_v4 and uuid::Uuid::as_u128: draws a random
/// version-4 identifier and returns its 128 bits. Nothing is promised of the
/// value: it is random.
#[verifier::external_body]
fn fresh_random_id() -> (r: u128) {
    uuid::Uuid::new_v4().as_u128()
}

/// Holds the callback handles registered with the engine, each under an
/// identifier no other live entry carries; entries keep their insertion order.
pub struct ListenerRegistry<T> {
    entries: Vec<(u128, T)>,
}

impl<T> View for ListenerRegistry<T> {
    type V = Seq<(u128, T)>;

    closed spec fn view(&self) -> Seq<(u128, T)> {
        self.entries@
    }
}

impl<T> ListenerRegistry<T> {
    /// Well-formed: no identifier is registered twice.
    pub open spec fn wf(&self) -> bool {
        unique_ids(self@)
    }

    /// An empty registry.
    pub fn new() -> (r: Self)
        ensures
            r@ == Seq::<(u128, T)>::empty(),
            r.wf(),
    {
        ListenerRegistry { entries: Vec::new() }
    }

    /// How many handles are registered.
    pub fn len(&self) -> (n: usize)
        ensures
            n == self@.len(),
    {
        self.entries.len()
    }

    /// The position of the first entry carrying `id`, if any does.
    fn index_of(&self, id: u128) -> (r: Option<usize>)
        ensures
            match r {
                Some(i) => i < self@.len() && self@[i as int].0 == id && forall|k: int|
                    0 <= k < i ==> self@[k].0 != id,
                None => !has_id(self@, id),
            },
    {
        let mut i: usize = 0;
        while i < self.entries.len()
            invariant
                i <= self.entries@.len(),
                forall|k: int| 0 <= k < i ==> self.entries@[k].0 != id,
            decreases self.entries@.len() - i,
        {
            let cur: u128 = self.entries[i].0;
            if cur == id {
                return Some(i);
            }
            i += 1;
        }
        None
    }

    /// Borrows the handle registered under `id`, when one is, so a caller can
    /// use it without taking it out of the registry.
    pub fn get(&self, id: u128) -> (r: Option<&T>)
        requires
            self.wf(),
        ensures
            match r {
                Some(h) => has_id(self@, id) && *h == self@[id_index(self@, id)].1,
                None => !has_id(self@, id),
            },
    {
        match self.index_of(id) {
            Some(i) => {
                proof {
                    lemma_found_index_is_id_index(self@, id, i as int);
                }
                Some(&self.entries[i].1)
            },
            None => None,
        }
    }

    /// Whether some entry carries the identifier `id`.
    pub fn contains(&self, id: u128) -> (b: bool)
        ensures
            b == has_id(self@, id),
    {
        match self.index_of(id) {
            Some(i) => {
                proof {
                    assert(has_id(self@, id)) by {
                        assert(self@[i as int].0 == id);
                    }
                }
                true
            },
            None => false,
        }
    }

    /// Records `handle` under a randomly drawn identifier and returns that
    /// identifier. A new entry goes to the end of the registry; in the rare
    /// event that the drawn identifier is already in use, the handle replaces
    /// the one recorded under it, as an insertion into a keyed map would.
    pub fn register(&mut self, handle: T) -> (id: u128)
        requires
            old(self).wf(),
        ensures
            final(self).wf(),
            !has_id(old(self)@, id) ==> final(self)@ == old(self)@.push((id, handle)),
            has_id(old(self)@, id) ==> final(self)@ == old(self)@.update(
                id_index(old(self)@, id),
                (id, handle),
            ),
    {
        let id: u128 = fresh_random_id();
        let ghost s0 = self.entries@;
        match self.index_of(id) {
            Some(i) => {
                let _replaced = self.entries.remove(i);
                self.entries.insert(i, (id, handle));
                proof {
                    lemma_found_index_is_id_index(s0, id, i as int);
                    assert(self.entries@ =~= s0.update(i as int, (id, handle)));
                    assert forall|a: int, b: int|
                        0 <= a < b < self.entries@.len() implies self.entries@[a].0
                        != self.entries@[b].0 by {
                        assert(self.entries@[a].0 == s0[a].0);
                        assert(self.entries@[b].0 == s0[b].0);
                    }
                }
            },
            None => {
                self.entries.push((id, handle));
                proof {
                    assert forall|a: int, b: int|
                        0 <= a < b < self.entries@.len() implies self.entries@[a].0
                        != self.entries@[b].0 by {
                        assert(self.entries@[a] == s0[a]);
                        if b < s0.len() {
                            assert(self.entries@[b] == s0[b]);
                        }
                    }
                }
            },
        }
        id
    }

    /// Removes the entry carrying `id` and returns its handle, so the caller
    /// can release it; leaves the registry unchanged when no entry carries
    /// `id`. The other entries keep their order.
    pub fn release(&mut self, id: u128) -> (r: Option<T>)
        requires
            old(self).wf(),
        ensures
            final(self).wf(),
            has_id(old(self)@, id) ==> {
                &&& r == Some(old(self)@[id_index(old(self)@, id)].1)
                &&& final(self)@ == old(self)@.remove(id_index(old(self)@, id))
            },
            !has_id(old(self)@, id) ==> r is None && final(self)@ == old(self)@,
    {
        let ghost s0 = self.entries@;
        match self.index_of(id) {
            Some(i) => {
                let entry = self.entries.remove(i);
                proof {
                    lemma_found_index_is_id_index(s0, id, i as int);
                    assert forall|a: int, b: int|
                        0 <= a < b < self.entries@.len() implies self.entries@[a].0
                        != self.entries@[b].0 by {
                        if b < i as int {
                            assert(self.entries@[a] == s0[a]);
                            assert(self.entries@[b] == s0[b]);
                        } else if a < i as int {
                            assert(self.entries@[a] == s0[a]);
                            assert(self.entries@[b] == s0[b + 1]);
                        } else {
                            assert(self.entries@[a] == s0[a + 1]);
                            assert(self.entries@[b] == s0[b + 1]);
                        }
                    }
                }
                Some(entry.1)
            },
            None => None,
        }
    }

    /// Empties the registry and returns every handle, in the order the
    /// entries were registered, so the caller can release each one.
    pub fn release_all(&mut self) -> (r: Vec<T>)
        requires
            old(self).wf(),
        ensures
            final(self).wf(),
            final(self)@ == Seq::<(u128, T)>::empty(),
            r@ == handles_of(old(self)@),
    {
        let ghost s0 = self.entries@;
        let mut out: Vec<T> = Vec::new();
        while self.entries.len() > 0
            invariant
                out@.len() + self.entries@.len() == s0.len(),
                self.entries@ == s0.subrange(out@.len() as int, s0.len() as int),
                out@ == handles_of(s0.subrange(0, out@.len() as int)),
            decreases self.entries@.len(),
        {
            let ghost done = out@.len() as int;
            let entry = self.entries.remove(0);
            out.push(entry.1);
            proof {
                assert(self.entries@ =~= s0.subrange(done + 1, s0.len() as int));
                assert(s0.subrange(0, done + 1) =~= s0.subrange(0, done).push(s0[done]));
                assert(out@ =~= handles_of(s0.subrange(0, done + 1)));
            }
        }
        proof {
            assert(s0.subrange(0, s0.len() as int) =~= s0);
            assert(self.entries@ =~= Seq::<(u128, T)>::empty());
        }
        out
    }
}

} // verus!
