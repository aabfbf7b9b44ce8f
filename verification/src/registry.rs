//! The subscription registry: per-object bookkeeping of the owned native
//! proxy, the active property-change listener handles, and the removal
//! callbacks, with ordered, leak-free teardown.
//!
//! Proxies, listeners and callbacks are whatever the caller owns for the
//! remote binding; the registry is generic over them and only keeps and
//! hands them back.  Every mutating operation runs on the event-loop
//! thread, which owns the registry exclusively; no locking is involved.

use vstd::prelude::*;

use crate::keymap::sl_contains;
use crate::keymap::sl_insert;
use crate::keymap::sl_lookup;
use crate::keymap::sl_remove;
use crate::keymap::KeyMap;

verus! {

/// Why a registry operation was refused.
#[derive(Clone, Copy, Debug, PartialEq, Eq, Structural)]
pub enum RegistryError {
    /// The object id has no registered proxy: a listener or a removal
    /// callback must never precede or outlive its object.
    UnregisteredObject(u32),
}

/// One tracked object's record: the owned proxy, the listener handles, and
/// the removal callbacks, each in registration order.
pub struct SubRecord<P, L, D> {
    pub proxy: P,
    pub listeners: Vec<L>,
    pub disposers: Vec<D>,
}

/// What removing a tracked object hands back.  The fields stand in the
/// order the teardown must use them: the removal callbacks are invoked
/// first, then the listener handles are dropped, then the proxy.
pub struct Removal<P, L, D> {
    pub disposers: Vec<D>,
    pub listeners: Vec<L>,
    pub proxy: P,
}

/// Per-object subscription bookkeeping, keyed by the server's object id.
pub struct Subscriptions<P, L, D> {
    records: KeyMap<SubRecord<P, L, D>>,
}

impl<P, L, D> View for Subscriptions<P, L, D> {
    type V = Seq<(u32, SubRecord<P, L, D>)>;

    closed spec fn view(&self) -> Seq<(u32, SubRecord<P, L, D>)> {
        self.records@
    }
}

impl<P, L, D> Subscriptions<P, L, D> {
    pub fn new() -> (r: Subscriptions<P, L, D>)
        ensures
            r@ == Seq::<(u32, SubRecord<P, L, D>)>::empty(),
    {
        Subscriptions { records: KeyMap::new() }
    }

    /// How many objects are tracked.
    pub fn len(&self) -> (n: usize)
        ensures
            n == self@.len(),
    {
        self.records.len()
    }

    /// Is an object tracked under this id?
    pub fn contains(&self, oid: u32) -> (r: bool)
        ensures
            r == sl_contains(self@, oid),
    {
        self.records.contains_key(oid)
    }

    /// Takes ownership of the proxy for a newly bound object.  A no-op if
    /// the id is already registered: the existing record stays and the
    /// offered proxy is dropped.
    pub fn register(&mut self, oid: u32, proxy: P)
        ensures
            sl_contains(old(self)@, oid) ==> final(self)@ == old(self)@,
            !sl_contains(old(self)@, oid) ==> {
                &&& final(self)@ == sl_insert(old(self)@, oid, final(self)@.last().1)
                &&& final(self)@.last().0 == oid
                &&& final(self)@.last().1.proxy == proxy
                &&& final(self)@.last().1.listeners@ == Seq::<L>::empty()
                &&& final(self)@.last().1.disposers@ == Seq::<D>::empty()
            },
    {
        if self.records.contains_key(oid) {
            return ;
        }
        let rec = SubRecord { proxy, listeners: Vec::new(), disposers: Vec::new() };
        self.records.insert(oid, rec);
    }

    /// Appends a property-change listener handle to the id's record.
    /// Refused when no proxy is registered under the id.
    pub fn add_listener(&mut self, oid: u32, listener: L) -> (r: Result<(), RegistryError>)
        ensures
            match r {
                Ok(_) => {
                    &&& sl_lookup(old(self)@, oid) matches Some(sr)
                    &&& final(self)@ == sl_insert(old(self)@, oid, final(self)@.last().1)
                    &&& final(self)@.last().0 == oid
                    &&& final(self)@.last().1.proxy == sr.proxy
                    &&& final(self)@.last().1.listeners@ == sr.listeners@.push(listener)
                    &&& final(self)@.last().1.disposers@ == sr.disposers@
                },
                Err(e) => {
                    &&& e == RegistryError::UnregisteredObject(oid)
                    &&& !sl_contains(old(self)@, oid)
                    &&& final(self)@ == old(self)@
                },
            },
    {
        proof {
            use_type_invariant(&self.records);
        }
        match self.records.remove(oid) {
            Some(mut rec) => {
                rec.listeners.push(listener);
                let ghost grec = rec;
                self.records.insert(oid, rec);
                proof {
                    crate::keymap::lemma_sl_remove_wf(old(self)@, oid);
                    crate::keymap::lemma_sl_remove_absent(sl_remove(old(self)@, oid), oid);
                    assert(self.records@.last() == (oid, grec));
                    assert(self.records@ == sl_insert(old(self)@, oid, grec));
                }
                Ok(())
            },
            None => {
                proof {
                    crate::keymap::lemma_sl_remove_absent(old(self)@, oid);
                }
                Err(RegistryError::UnregisteredObject(oid))
            },
        }
    }

    /// Appends a removal callback to the id's record.  Refused when no
    /// proxy is registered under the id.
    pub fn on_remove(&mut self, oid: u32, callback: D) -> (r: Result<(), RegistryError>)
        ensures
            match r {
                Ok(_) => {
                    &&& sl_lookup(old(self)@, oid) matches Some(sr)
                    &&& final(self)@ == sl_insert(old(self)@, oid, final(self)@.last().1)
                    &&& final(self)@.last().0 == oid
                    &&& final(self)@.last().1.proxy == sr.proxy
                    &&& final(self)@.last().1.listeners@ == sr.listeners@
                    &&& final(self)@.last().1.disposers@ == sr.disposers@.push(callback)
                },
                Err(e) => {
                    &&& e == RegistryError::UnregisteredObject(oid)
                    &&& !sl_contains(old(self)@, oid)
                    &&& final(self)@ == old(self)@
                },
            },
    {
        proof {
            use_type_invariant(&self.records);
        }
        match self.records.remove(oid) {
            Some(mut rec) => {
                rec.disposers.push(callback);
                let ghost grec = rec;
                self.records.insert(oid, rec);
                proof {
                    crate::keymap::lemma_sl_remove_wf(old(self)@, oid);
                    crate::keymap::lemma_sl_remove_absent(sl_remove(old(self)@, oid), oid);
                    assert(self.records@.last() == (oid, grec));
                    assert(self.records@ == sl_insert(old(self)@, oid, grec));
                }
                Ok(())
            },
            None => {
                proof {
                    crate::keymap::lemma_sl_remove_absent(old(self)@, oid);
                }
                Err(RegistryError::UnregisteredObject(oid))
            },
        }
    }

    /// Unregisters the object and hands its record back for teardown: the
    /// removal callbacks (to invoke in registration order), then the
    /// listener handles, then the proxy, in the order they must go.
    pub fn remove(&mut self, oid: u32) -> (r: Option<Removal<P, L, D>>)
        ensures
            final(self)@ == sl_remove(old(self)@, oid),
            match r {
                Some(rm) => sl_lookup(old(self)@, oid) == Some(
                    SubRecord { proxy: rm.proxy, listeners: rm.listeners, disposers: rm.disposers },
                ),
                None => !sl_contains(old(self)@, oid),
            },
    {
        match self.records.remove(oid) {
            Some(rec) => Some(
                Removal { disposers: rec.disposers, listeners: rec.listeners, proxy: rec.proxy },
            ),
            None => None,
        }
    }

    /// Full-shutdown teardown: drops every listener handle and every
    /// removal-callback list, for all ids, without invoking any callback;
    /// the proxies stay registered.
    pub fn clear(&mut self)
        ensures
            final(self)@.len() == old(self)@.len(),
            forall|i: int|
                0 <= i < old(self)@.len() ==> {
                    &&& (#[trigger] final(self)@[i]).0 == old(self)@[i].0
                    &&& final(self)@[i].1.proxy == old(self)@[i].1.proxy
                    &&& final(self)@[i].1.listeners@ == Seq::<L>::empty()
                    &&& final(self)@[i].1.disposers@ == Seq::<D>::empty()
                },
    {
        proof {
            use_type_invariant(&self.records);
        }
        let mut pairs = self.records.take_pairs();
        let ghost old_pairs = pairs@;
        let mut kept: KeyMap<SubRecord<P, L, D>> = KeyMap::new();
        let total: usize = pairs.len();
        let ghost n = total as int;
        let mut i: usize = 0;
        proof {
            assert(old_pairs.skip(0) =~= old_pairs);
        }
        while pairs.len() > 0
            invariant
                pairs@ == old_pairs.skip(i as int),
                0 <= i as int <= n,
                n == total as int,
                n == old_pairs.len(),
                crate::keymap::sl_wf(old_pairs),
                kept@.len() == i as int,
                forall|j: int|
                    0 <= j < i as int ==> {
                        &&& (#[trigger] kept@[j]).0 == old_pairs[j].0
                        &&& kept@[j].1.proxy == old_pairs[j].1.proxy
                        &&& kept@[j].1.listeners@ == Seq::<L>::empty()
                        &&& kept@[j].1.disposers@ == Seq::<D>::empty()
                    },
            decreases pairs@.len(),
        {
            let (oid, rec) = pairs.remove(0);
            let bare = SubRecord { proxy: rec.proxy, listeners: Vec::new(), disposers: Vec::new() };
            proof {
                assert(old_pairs.skip(i as int)[0] == old_pairs[i as int]);
                assert forall|j: int| 0 <= j < kept@.len() implies (#[trigger] kept@[j]).0 != oid by {
                    assert(kept@[j].0 == old_pairs[j].0);
                    assert(old_pairs[j].0 != old_pairs[i as int].0);
                }
                crate::keymap::lemma_sl_remove_none(kept@, oid);
                assert(old_pairs.skip(i as int).remove(0) =~= old_pairs.skip(i as int + 1));
            }
            kept.insert(oid, bare);
            i = i + 1;
        }
        self.records = kept;
    }
}

} // verus!
