//! Keyed in-memory registry of shared, individually lockable resource handles.

use std::sync::Arc;
use vstd::prelude::*;

verus! {

/// Lock of a handle.
#[verifier::external_type_specification]
#[verifier::external_body]
#[verifier::reject_recursive_types(R)]
#[verifier::reject_recursive_types(T)]
pub struct ExLockApiMutex<R, T: ?Sized>(lock_api::Mutex<R, T>);

/// Raw lock used by the handles' mutex.
#[verifier::external_type_specification]
#[verifier::external_body]
pub struct ExRawMutex(parking_lot::RawMutex);

/// A shared handle to a resource, locked for each update.
pub type Handle<S> = Arc<parking_lot::Mutex<S>>;

/// Relies on std's `Arc::clone`: a new handle to the same allocation.
#[verifier::external_body]
pub fn share_handle<S>(handle: &Handle<S>) -> (r: Handle<S>)
    ensures
        r == *handle,
{
    Arc::clone(handle)
}

/// Relies on lock_api's `Mutex::new` (parking_lot's mutex): a new, unlocked
/// mutex around the value.
#[verifier::external_body]
fn new_mutex<S>(value: S) -> parking_lot::Mutex<S> {
    parking_lot::Mutex::new(value)
}

/// A new handle holding the value.
pub fn new_handle<S>(value: S) -> Handle<S> {
    Arc::new(new_mutex(value))
}

/// Relies on lock_api's `Mutex::lock` (parking_lot's mutex): locks the handle,
/// and returns a `Clone` of what it holds as the lock is released.
#[verifier::external_body]
pub fn locked_copy<S: Clone>(handle: &Handle<S>) -> S {
    handle.lock().clone()
}

/// Resources that are keyed by the text of their uuid.
pub trait UuidString {
    /// The uuid's text.
    spec fn uuid_text(&self) -> Seq<char>;

    /// The uuid as an owned string.
    fn uuid_as_string(&self) -> (r: String)
        ensures
            r@ == self.uuid_text(),
    ;
}

/// Map from resource identifier to a shared handle of the resource.
#[verifier::reject_recursive_types(S)]
pub struct ResourceMap<S> {
    entries: Vec<(String, Handle<S>)>,
    contents: Ghost<Map<Seq<char>, Handle<S>>>,
}

impl<S> View for ResourceMap<S> {
    type V = Map<Seq<char>, Handle<S>>;

    closed spec fn view(&self) -> Map<Seq<char>, Handle<S>> {
        self.contents@
    }
}

impl<S> ResourceMap<S> {
    /// The entries are keyed uniquely and hold exactly the map's contents.
    pub closed spec fn wf(&self) -> bool {
        &&& forall|i: int, j: int|
            0 <= i < self.entries@.len() && 0 <= j < self.entries@.len() && i != j
                ==> self.entries@[i].0@ != self.entries@[j].0@
        &&& forall|i: int|
            0 <= i < self.entries@.len() ==> self.contents@.contains_key(
                (#[trigger] self.entries@[i]).0@,
            ) && self.contents@[self.entries@[i].0@] == self.entries@[i].1
        &&& forall|k: Seq<char>|
            #[trigger] self.contents@.contains_key(k) ==> exists|i: int|
                0 <= i < self.entries@.len() && (#[trigger] self.entries@[i]).0@ == k
        &&& self.contents@.dom().finite()
    }

    /// The handles in the map, in the map's own order.
    pub closed spec fn handles(&self) -> Seq<Handle<S>> {
        self.entries@.map_values(|e: (String, Handle<S>)| e.1)
    }

    /// An empty map.
    pub fn new() -> (r: Self)
        ensures
            r.wf(),
            r@ == Map::<Seq<char>, Handle<S>>::empty(),
    {
        ResourceMap { entries: Vec::new(), contents: Ghost(Map::empty()) }
    }

    fn index_of(&self, key: &String) -> (r: Option<usize>)
        requires
            self.wf(),
        ensures
            r matches Some(i) ==> i < self.entries@.len() && self.entries@[i as int].0@ == key@,
            r is None ==> !self@.contains_key(key@),
    {
        let mut i: usize = 0;
        while i < self.entries.len()
            invariant
                self.wf(),
                i <= self.entries@.len(),
                forall|j: int| 0 <= j < i ==> self.entries@[j].0@ != key@,
            decreases self.entries@.len() - i,
        {
            if self.entries[i].0.eq(key) {
                return Some(i);
            }
            i = i + 1;
        }
        None
    }

    /// Get the resource with the given key.
    pub fn get(&self, key: &String) -> (r: Option<&Handle<S>>)
        requires
            self.wf(),
        ensures
            r is Some <==> self@.contains_key(key@),
            r matches Some(h) ==> *h == self@[key@],
    {
        match self.index_of(key) {
            Some(i) => Some(&self.entries[i].1),
            None => None,
        }
    }

    /// Clear the contents of the map.
    pub fn clear(&mut self)
        ensures
            final(self).wf(),
            final(self)@ == Map::<Seq<char>, Handle<S>>::empty(),
    {
        self.entries.clear();
        self.contents = Ghost(Map::empty());
    }

    /// Insert an element or update an existing entry in the map.
    pub fn insert(&mut self, key: String, value: Handle<S>)
        requires
            old(self).wf(),
        ensures
            final(self).wf(),
            final(self)@ == old(self)@.insert(key@, value),
    {
        let ghost k = key@;
        let ghost v = value;
        match self.index_of(&key) {
            Some(i) => {
                self.entries.set(i, (key, value));
            },
            None => {
                self.entries.push((key, value));
            },
        }
        self.contents = Ghost(self.contents@.insert(k, v));
        proof {
            assert forall|q: Seq<char>| #[trigger] self.contents@.contains_key(q) implies exists|
                i: int,
            | 0 <= i < self.entries@.len() && (#[trigger] self.entries@[i]).0@ == q by {
                if q == k {
                    let n = self.entries@.len() - 1;
                    if old(self)@.contains_key(k) {
                        let w = choose|i: int|
                            0 <= i < old(self).entries@.len() && (#[trigger] old(
                                self,
                            ).entries@[i]).0@ == k;
                        assert(self.entries@[w].0@ == q);
                    } else {
                        assert(self.entries@[n].0@ == q);
                    }
                } else {
                    let w = choose|i: int|
                        0 <= i < old(self).entries@.len() && (#[trigger] old(self).entries@[i]).0@
                            == q;
                    assert(self.entries@[w].0@ == q);
                }
            }
        }
    }

    /// Remove an element from the map.
    pub fn remove(&mut self, key: &String)
        requires
            old(self).wf(),
        ensures
            final(self).wf(),
            final(self)@ == old(self)@.remove(key@),
    {
        match self.index_of(key) {
            Some(i) => {
                let ghost before = self.entries@;
                self.entries.remove(i);
                self.contents = Ghost(self.contents@.remove(key@));
                proof {
                    assert forall|j: int| 0 <= j < self.entries@.len() implies #[trigger] self.entries@[j]
                        == (if j < i {
                        before[j]
                    } else {
                        before[j + 1]
                    }) by {}
                    assert forall|q: Seq<char>| #[trigger] self.contents@.contains_key(q) implies exists|
                        j: int,
                    | 0 <= j < self.entries@.len() && (#[trigger] self.entries@[j]).0@ == q by {
                        let w = choose|j: int|
                            0 <= j < before.len() && (#[trigger] before[j]).0@ == q;
                        if w < i {
                            assert(self.entries@[w].0@ == q);
                        } else {
                            assert(self.entries@[w - 1].0@ == q);
                        }
                    }
                }
            },
            None => {
                proof {
                    assert(self.contents@.remove(key@) =~= self.contents@);
                }
            },
        }
    }

    /// Get all the resources as a vector.
    pub fn to_vec(&self) -> (r: Vec<Handle<S>>)
        requires
            self.wf(),
        ensures
            r@ == self.handles(),
            r@.len() == self@.len(),
            forall|h: Handle<S>| r@.contains(h) <==> self@.contains_value(h),
    {
        let mut r: Vec<Handle<S>> = Vec::new();
        let mut i: usize = 0;
        while i < self.entries.len()
            invariant
                self.wf(),
                i <= self.entries@.len(),
                r@ == self.entries@.subrange(0, i as int).map_values(|e: (String, Handle<S>)| e.1),
            decreases self.entries@.len() - i,
        {
            r.push(share_handle(&self.entries[i].1));
            proof {
                assert(self.entries@.subrange(0, i + 1).map_values(|e: (String, Handle<S>)| e.1)
                    =~= self.entries@.subrange(0, i as int).map_values(|e: (String, Handle<S>)| e.1).push(
                    self.entries@[i as int].1,
                ));
            }
            i = i + 1;
        }
        proof {
            assert(self.entries@.subrange(0, self.entries@.len() as int) =~= self.entries@);
            self.lemma_len();
            assert forall|h: Handle<S>| r@.contains(h) <==> self@.contains_value(h) by {
                if r@.contains(h) {
                    let j = choose|j: int| 0 <= j < r@.len() && r@[j] == h;
                    assert(self@[self.entries@[j].0@] == h);
                }
                if self@.contains_value(h) {
                    let k = choose|k: Seq<char>| #[trigger] self@.contains_key(k) && self@[k] == h;
                    let j = choose|j: int| 0 <= j < self.entries@.len() && (#[trigger] self.entries@[j]).0@ == k;
                    assert(r@[j] == h);
                }
            }
        }
        r
    }

    /// The map has one entry per stored handle.
    proof fn lemma_len(&self)
        requires
            self.wf(),
        ensures
            self@.len() == self.entries@.len(),
    {
        let keys = self.entries@.map_values(|e: (String, Handle<S>)| e.0@);
        assert(keys.no_duplicates()) by {
            assert forall|i: int, j: int| 0 <= i < keys.len() && 0 <= j < keys.len() && i != j implies keys[i] != keys[j] by {
                assert(keys[i] == self.entries@[i].0@);
                assert(keys[j] == self.entries@[j].0@);
            }
        }
        assert(keys.to_set() =~= self@.dom()) by {
            assert forall|k: Seq<char>| keys.to_set().contains(k) <==> self@.dom().contains(k) by {
                if keys.to_set().contains(k) {
                    assert(keys.contains(k));
                    let j = choose|j: int| 0 <= j < keys.len() && keys[j] == k;
                    assert(self.entries@[j].0@ == k);
                }
                if self@.dom().contains(k) {
                    let j = choose|j: int| 0 <= j < self.entries@.len() && (#[trigger] self.entries@[j]).0@ == k;
                    assert(keys[j] == k);
                    assert(keys.contains(k));
                }
            }
        }
        keys.unique_seq_to_set();
    }
}

impl<S: UuidString> ResourceMap<S> {
    /// Replace the contents of the map with one fresh handle per value, keyed
    /// by the value's uuid. Stale entries (not among the values) are removed.
    pub fn update(&mut self, values: Vec<S>)
        ensures
            final(self).wf(),
            forall|k: Seq<char>|
                final(self)@.contains_key(k) <==> exists|i: int|
                    0 <= i < values@.len() && (#[trigger] values@[i]).uuid_text() == k,
    {
        // First clear the map. This ensures any stale entries (not in the vector of values) will be
        // removed.
        self.clear();
        let ghost vals = values@;
        let count: usize = values.len();
        let mut rest = values;
        let mut n: usize = 0;
        let ghost total = vals.len();
        while rest.len() > 0
            invariant
                self.wf(),
                n + rest@.len() == total,
                total == vals.len(),
                total == count,
                rest@ =~= vals.subrange(n as int, total as int),
                forall|k: Seq<char>|
                    self@.contains_key(k) <==> exists|i: int|
                        0 <= i < n && (#[trigger] vals[i]).uuid_text() == k,
            decreases rest@.len(),
        {
            let value = rest.remove(0);
            proof {
                assert(value == vals[n as int]);
                assert(rest@ =~= vals.subrange(n + 1, total as int));
            }
            let key = value.uuid_as_string();
            self.insert(key, new_handle(value));
            n = n + 1;
            proof {
                assert forall|k: Seq<char>|
                    self@.contains_key(k) <==> exists|i: int|
                        0 <= i < n && (#[trigger] vals[i]).uuid_text() == k by {
                    if self@.contains_key(k) && k != vals[n - 1].uuid_text() {
                        let i = choose|i: int| 0 <= i < n - 1 && (#[trigger] vals[i]).uuid_text() == k;
                        assert(0 <= i < n);
                    }
                    if k == vals[n - 1].uuid_text() {
                        assert(vals[n - 1].uuid_text() == k);
                    }
                }
            }
        }
    }
}

} // verus!
