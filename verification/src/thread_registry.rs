//! Assignment of process-unique logical thread identities.
//!
//! Each execution context (an OS thread) is keyed by an opaque integer
//! of the caller's choosing. On its first request a key is appended to
//! the registry and receives the next identity; every later request by
//! the same key answers the same identity. Identities are therefore
//! unique across keys, stable once assigned, and handed out in
//! allocation order of first request.

use vstd::prelude::*;

verus! {

/// The registry of thread keys, in order of first request. A key's
/// identity is its position.
pub struct ThreadRegistry {
    keys: Vec<u64>,
}

impl View for ThreadRegistry {
    type V = Seq<u64>;

    /// The registered keys, in order of first request.
    closed spec fn view(&self) -> Seq<u64> {
        self.keys@
    }
}

impl ThreadRegistry {
    /// No key is registered twice.
    pub open spec fn wf(&self) -> bool {
        forall|i: int, j: int| 0 <= i < j < self@.len() ==> self@[i] != self@[j]
    }

    /// A key that has already requested an identity.
    pub open spec fn registered(&self, key: u64) -> bool {
        self@.contains(key)
    }

    /// An empty registry: no thread has requested an identity yet.
    pub fn new() -> (r: ThreadRegistry)
        ensures
            r@ == Seq::<u64>::empty(),
            r.wf(),
    {
        ThreadRegistry { keys: Vec::new() }
    }

    /// How many threads have been assigned an identity.
    pub fn count(&self) -> (n: usize)
        ensures
            n == self@.len(),
    {
        self.keys.len()
    }

    /// The identity of `key`: assigned on first request, repeated on
    /// every later one. Identities are consecutive integers in
    /// allocation order, so a first request answers the number of
    /// threads registered before it.
    pub fn identity(&mut self, key: u64) -> (id: u64)
        requires
            old(self).wf(),
        ensures
            final(self).wf(),
            old(self).registered(key) ==> {
                &&& final(self)@ == old(self)@
                &&& id < final(self)@.len()
                &&& final(self)@[id as int] == key
            },
            !old(self).registered(key) ==> {
                &&& final(self)@ == old(self)@.push(key)
                &&& id == old(self)@.len()
            },
    {
        let n = self.keys.len();
        let mut i: usize = 0;
        while i < n
            invariant
                *self == *old(self),
                self.wf(),
                i <= n == self.keys@.len(),
                forall|j: int| 0 <= j < i ==> self.keys@[j] != key,
            decreases n - i,
        {
            if self.keys[i] == key {
                return i as u64;
            }
            i += 1;
        }
        proof {
            assert(!self@.contains(key));
        }
        self.keys.push(key);
        n as u64
    }
}

/// Identities are injective: two distinct registered keys never answer
/// the same identity, and every identity is below the number of
/// registered threads.
pub proof fn lemma_identities_injective(r: ThreadRegistry, k1: u64, k2: u64)
    requires
        r.wf(),
        r.registered(k1),
        r.registered(k2),
        k1 != k2,
    ensures
        0 <= r@.index_of(k1) < r@.len(),
        0 <= r@.index_of(k2) < r@.len(),
        r@.index_of(k1) != r@.index_of(k2),
{
    assert(r@[r@.index_of(k1)] == k1);
    assert(r@[r@.index_of(k2)] == k2);
}

/// Identities are handed out in allocation order: a key registered
/// earlier holds a strictly smaller identity than one registered
/// later, and the identities of the first `n` threads are exactly
/// `0 .. n`.
pub proof fn lemma_identities_in_allocation_order(r: ThreadRegistry, i: int, j: int)
    requires
        r.wf(),
        0 <= i < j < r@.len(),
    ensures
        r@.index_of(r@[i]) == i,
        r@.index_of(r@[j]) == j,
        r@.index_of(r@[i]) < r@.index_of(r@[j]),
{
    assert(r@.contains(r@[i]));
    assert(r@.contains(r@[j]));
    let i0 = r@.index_of(r@[i]);
    let j0 = r@.index_of(r@[j]);
    assert(r@[i0] == r@[i]);
    assert(r@[j0] == r@[j]);
}

} // verus!
