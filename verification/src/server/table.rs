//! Bookkeeping for requests that await an answer, keyed by request id.
//!
//! The server keeps one entry per running request handler; the client keeps
//! one per server-to-client request awaiting the editor's reply. Whoever
//! removes an entry first owns the right to answer it, which is what makes
//! each request answered exactly once when a handler finishes at the same
//! moment a `$/cancelRequest` arrives.

use crate::jsonrpc::{IdKey, RequestId};
use vstd::prelude::*;

verus! {

/// A table of entries keyed by [`RequestId`], each id at most once.
pub struct RequestTable<T> {
    entries: Vec<(RequestId, T)>,
    contents: Ghost<Map<IdKey, T>>,
}

/// The result of removing `key` from a table holding `m`: the entry that
/// was there, if any, and what the table holds afterwards.
pub open spec fn claim<T>(m: Map<IdKey, T>, key: IdKey) -> (Option<T>, Map<IdKey, T>) {
    (if m.contains_key(key) {
        Some(m[key])
    } else {
        None
    }, m.remove(key))
}

impl<T> RequestTable<T> {
    /// The entries, by the identity of their ids.
    pub closed spec fn view(&self) -> Map<IdKey, T> {
        self.contents@
    }

    #[verifier::type_invariant]
    closed spec fn well_formed(self) -> bool {
        &&& forall|i: int, j: int|
            0 <= i < j < self.entries@.len() ==> (#[trigger] self.entries@[i]).0.key()
                != (#[trigger] self.entries@[j]).0.key()
        &&& forall|i: int|
            0 <= i < self.entries@.len() ==> #[trigger] self.contents@.contains_key(
                self.entries@[i].0.key(),
            ) && self.contents@[self.entries@[i].0.key()] == self.entries@[i].1
        &&& forall|k: IdKey|
            #[trigger] self.contents@.contains_key(k) ==> exists|i: int|
                0 <= i < self.entries@.len() && #[trigger] self.entries@[i].0.key() == k
    }

    /// An empty table.
    pub fn new() -> (r: Self)
        ensures
            r@ == Map::<IdKey, T>::empty(),
    {
        RequestTable { entries: Vec::new(), contents: Ghost(Map::empty()) }
    }

    /// Empty the table, handing back its entries as they were.
    fn take_entries(&mut self) -> (r: Vec<(RequestId, T)>)
        ensures
            r@ == old(self).entries@,
            final(self)@ == Map::<IdKey, T>::empty(),
            final(self).entries@.len() == 0,
    {
        let mut this = RequestTable { entries: Vec::new(), contents: Ghost(Map::empty()) };
        std::mem::swap(&mut this, self);
        let RequestTable { entries, contents: _ } = this;
        entries
    }

    /// The position of `id` among the entries, if it is there.
    fn position(&self, id: &RequestId) -> (r: Option<usize>)
        ensures
            match r {
                Some(i) => i < self.entries@.len() && self.entries@[i as int].0.key() == id.key(),
                None => !self@.contains_key(id.key()),
            },
    {
        proof {
            use_type_invariant(self);
        }
        let mut i: usize = 0;
        while i < self.entries.len()
            invariant
                i <= self.entries@.len(),
                forall|j: int| 0 <= j < i ==> (#[trigger] self.entries@[j]).0.key() != id.key(),
            decreases self.entries@.len() - i,
        {
            if self.entries[i].0 == *id {
                return Some(i);
            }
            i += 1;
        }
        proof {
            if self@.contains_key(id.key()) {
                let j = choose|j: int|
                    0 <= j < self.entries@.len() && #[trigger] self.entries@[j].0.key() == id.key();
                assert(self.entries@[j].0.key() != id.key());
            }
        }
        None
    }

    /// Whether an entry for `id` is present.
    pub fn contains(&self, id: &RequestId) -> (r: bool)
        ensures
            r == self@.contains_key(id.key()),
    {
        proof {
            use_type_invariant(self);
        }
        self.position(id).is_some()
    }

    /// Add an entry for `id` unless one is present. Returns whether the
    /// entry was added; an id already present keeps its entry.
    pub fn insert_new(&mut self, id: RequestId, value: T) -> (r: bool)
        ensures
            r == !old(self)@.contains_key(id.key()),
            r ==> final(self)@ == old(self)@.insert(id.key(), value),
            !r ==> final(self)@ == old(self)@,
    {
        proof {
            use_type_invariant(&*self);
        }
        if self.position(&id).is_some() {
            return false;
        }
        let ghost key = id.key();
        let ghost old_entries = self.entries@;
        let ghost new_contents = self.contents@.insert(key, value);
        let mut entries = self.take_entries();
        entries.push((id, value));
        proof {
            assert(entries@ == old_entries.push((id, value)));
            assert forall|k: IdKey| #[trigger] new_contents.contains_key(k) implies exists|i: int|
                0 <= i < entries@.len() && #[trigger] entries@[i].0.key() == k by {
                if k == key {
                    assert(entries@[old_entries.len() as int].0.key() == k);
                } else {
                    let i = choose|i: int|
                        0 <= i < old_entries.len() && #[trigger] old_entries[i].0.key() == k;
                    assert(entries@[i].0.key() == k);
                }
            }
            assert forall|i: int| 0 <= i < entries@.len() implies #[trigger] new_contents.contains_key(
                entries@[i].0.key(),
            ) && new_contents[entries@[i].0.key()] == entries@[i].1 by {
                if i < old_entries.len() {
                    assert(entries@[i] == old_entries[i]);
                }
            }
        }
        *self = RequestTable { entries, contents: Ghost(new_contents) };
        true
    }

    /// Remove the entry for `id` and hand it back, if present.
    pub fn remove(&mut self, id: &RequestId) -> (r: Option<T>)
        ensures
            (r, final(self)@) == claim(old(self)@, id.key()),
    {
        proof {
            use_type_invariant(&*self);
        }
        match self.position(id) {
            None => {
                proof {
                    assert(self@.remove(id.key()) =~= self@);
                }
                None
            },
            Some(i) => {
                let ghost key = id.key();
                let ghost old_entries = self.entries@;
                let ghost old_contents = self.contents@;
                let ghost new_contents = self.contents@.remove(key);
                let mut entries = self.take_entries();
                let (_, value) = entries.remove(i);
                proof {
                    assert(entries@ == old_entries.remove(i as int));
                    assert forall|a: int, b: int|
                        0 <= a < b < entries@.len() implies (#[trigger] entries@[a]).0.key() != (
                        #[trigger] entries@[b]).0.key() by {
                        let oa = if a < i { a } else { a + 1 };
                        let ob = if b < i { b } else { b + 1 };
                        assert(entries@[a] == old_entries[oa]);
                        assert(entries@[b] == old_entries[ob]);
                        assert(old_entries[oa].0.key() != old_entries[ob].0.key());
                    }
                    assert forall|k: IdKey| #[trigger]
                        new_contents.contains_key(k) implies exists|j: int|
                        0 <= j < entries@.len() && #[trigger] entries@[j].0.key() == k by {
                        let j = choose|j: int|
                            0 <= j < old_entries.len() && #[trigger] old_entries[j].0.key() == k;
                        if j < i {
                            assert(entries@[j].0.key() == k);
                        } else {
                            assert(j != i);
                            assert(entries@[j - 1].0.key() == k);
                        }
                    }
                    assert forall|j: int| 0 <= j < entries@.len() implies #[trigger]
                        new_contents.contains_key(entries@[j].0.key()) && new_contents[entries@[
                        j].0.key()] == entries@[j].1 by {
                        let oj = if j < i { j } else { j + 1 };
                        assert(entries@[j] == old_entries[oj]);
                        assert(old_entries[oj].0.key() != old_entries[i as int].0.key());
                        assert(old_contents.contains_key(old_entries[oj].0.key()));
                        assert(old_contents[old_entries[oj].0.key()] == old_entries[oj].1);
                    }
                }
                *self = RequestTable { entries, contents: Ghost(new_contents) };
                Some(value)
            },
        }
    }

    /// Remove every entry, handing back each one once, with its id.
    pub fn drain(&mut self) -> (r: Vec<(RequestId, T)>)
        ensures
            final(self)@ == Map::<IdKey, T>::empty(),
            forall|i: int|
                0 <= i < r@.len() ==> #[trigger] old(self)@.contains_key(r@[i].0.key())
                    && old(self)@[r@[i].0.key()] == r@[i].1,
            forall|k: IdKey| #[trigger]
                old(self)@.contains_key(k) ==> exists|i: int|
                    0 <= i < r@.len() && #[trigger] r@[i].0.key() == k,
    {
        proof {
            use_type_invariant(&*self);
        }
        self.take_entries()
    }

    /// Whether the table is empty.
    pub fn is_empty(&self) -> (r: bool)
        ensures
            r == (self@.dom() == Set::<IdKey>::empty()),
    {
        proof {
            use_type_invariant(self);
            if self.entries@.len() > 0 {
                assert(self@.contains_key(self.entries@[0].0.key()));
            } else {
                assert(self@.dom() =~= Set::<IdKey>::empty());
            }
        }
        self.entries.len() == 0
    }
}

/// Each request is answered exactly once: of the parties racing to answer
/// a request that is in the table (its handler finishing, a cancellation),
/// the first to claim it gets its entry and every later claim gets nothing;
/// claiming another request leaves it in place.
pub proof fn lemma_answered_exactly_once<T>(m: Map<IdKey, T>, key: IdKey, other: IdKey)
    requires
        m.contains_key(key),
    ensures
        claim(m, key).0 == Some(m[key]),
        claim(claim(m, key).1, key).0 is None,
        other != key ==> claim(claim(m, other).1, key).0 == Some(m[key]),
{
}

} // verus!
