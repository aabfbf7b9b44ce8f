//! An insertion-ordered map keyed by the server's object ids.
//!
//! The registry and the reconciler both need a plain, exclusively-owned
//! mapping from object id to some record.  This one is an association list
//! with pairwise-distinct keys; its abstract value is the sequence of stored
//! pairs, oldest first, so that contracts can also speak about the order in
//! which entries are walked.

use vstd::prelude::*;

verus! {

/// The value stored under `k`, scanning the pairs from the front.
pub open spec fn sl_lookup<T>(s: Seq<(u32, T)>, k: u32) -> Option<T>
    decreases s.len(),
{
    if s.len() == 0 {
        None
    } else if s[0].0 == k {
        Some(s[0].1)
    } else {
        sl_lookup(s.drop_first(), k)
    }
}

pub open spec fn sl_contains<T>(s: Seq<(u32, T)>, k: u32) -> bool {
    sl_lookup(s, k) is Some
}

/// All keys pairwise distinct.
pub open spec fn sl_wf<T>(s: Seq<(u32, T)>) -> bool {
    forall|i: int, j: int| 0 <= i < j < s.len() ==> (#[trigger] s[i]).0 != (#[trigger] s[j]).0
}

/// The pairs with the first occurrence of key `k` taken out (under `sl_wf`,
/// the only occurrence).
pub open spec fn sl_remove<T>(s: Seq<(u32, T)>, k: u32) -> Seq<(u32, T)>
    decreases s.len(),
{
    if s.len() == 0 {
        s
    } else if s[0].0 == k {
        s.drop_first()
    } else {
        seq![s[0]] + sl_remove(s.drop_first(), k)
    }
}

/// Insertion: any old pair under `k` leaves, the new pair goes to the back.
pub open spec fn sl_insert<T>(s: Seq<(u32, T)>, k: u32, v: T) -> Seq<(u32, T)> {
    sl_remove(s, k).push((k, v))
}

/// A key that matches no pair before position `i` and matches at `i` is
/// found there.
pub proof fn lemma_sl_lookup_at<T>(s: Seq<(u32, T)>, k: u32, i: int)
    requires
        0 <= i < s.len(),
        s[i].0 == k,
        forall|j: int| 0 <= j < i ==> (#[trigger] s[j]).0 != k,
    ensures
        sl_lookup(s, k) == Some(s[i].1),
    decreases i,
{
    if i > 0 {
        lemma_sl_lookup_at(s.drop_first(), k, i - 1);
    }
}

/// A key that matches no pair is not found.
pub proof fn lemma_sl_lookup_none<T>(s: Seq<(u32, T)>, k: u32)
    requires
        forall|j: int| 0 <= j < s.len() ==> (#[trigger] s[j]).0 != k,
    ensures
        sl_lookup(s, k) is None,
    decreases s.len(),
{
    if s.len() > 0 {
        lemma_sl_lookup_none(s.drop_first(), k);
    }
}

/// Removing a key that matches at position `i` and nowhere earlier takes
/// out exactly that pair.
pub proof fn lemma_sl_remove_at<T>(s: Seq<(u32, T)>, k: u32, i: int)
    requires
        0 <= i < s.len(),
        s[i].0 == k,
        forall|j: int| 0 <= j < i ==> (#[trigger] s[j]).0 != k,
    ensures
        sl_remove(s, k) == s.remove(i),
    decreases i,
{
    if i == 0 {
        assert(sl_remove(s, k) =~= s.remove(0));
    } else {
        lemma_sl_remove_at(s.drop_first(), k, i - 1);
        assert(seq![s[0]] + s.drop_first().remove(i - 1) =~= s.remove(i));
    }
}

/// Removing a key that matches nothing changes nothing.
pub proof fn lemma_sl_remove_none<T>(s: Seq<(u32, T)>, k: u32)
    requires
        forall|j: int| 0 <= j < s.len() ==> (#[trigger] s[j]).0 != k,
    ensures
        sl_remove(s, k) == s,
    decreases s.len(),
{
    if s.len() > 0 {
        lemma_sl_remove_none(s.drop_first(), k);
        assert(seq![s[0]] + s.drop_first() =~= s);
    }
}

/// What a lookup sees after a removal: nothing under the removed key, and
/// the same as before under every other key.
pub proof fn lemma_sl_lookup_remove<T>(s: Seq<(u32, T)>, k: u32, k2: u32)
    requires
        sl_wf(s),
    ensures
        sl_lookup(sl_remove(s, k), k2) == if k2 == k {
            None::<T>
        } else {
            sl_lookup(s, k2)
        },
    decreases s.len(),
{
    if s.len() > 0 {
        assert(forall|j: int| 0 <= j < s.drop_first().len() ==> (#[trigger] s.drop_first()[j])
            == s[j + 1]);
        if s[0].0 == k {
            if k2 == k {
                lemma_sl_lookup_none(s.drop_first(), k2);
            }
        } else {
            lemma_sl_lookup_remove(s.drop_first(), k, k2);
            let rest = sl_remove(s.drop_first(), k);
            let whole = seq![s[0]] + rest;
            assert(whole[0] == s[0]);
            assert(whole.drop_first() =~= rest);
        }
    }
}

/// What a lookup sees after an insertion: the new value under the inserted
/// key, and the same as before under every other key.
pub proof fn lemma_sl_lookup_insert<T>(s: Seq<(u32, T)>, k: u32, v: T, k2: u32)
    requires
        sl_wf(s),
    ensures
        sl_lookup(sl_insert(s, k, v), k2) == if k2 == k {
            Some(v)
        } else {
            sl_lookup(s, k2)
        },
{
    let rem = sl_remove(s, k);
    lemma_sl_lookup_remove(s, k, k2);
    lemma_sl_remove_wf(s, k);
    lemma_sl_lookup_push(rem, (k, v), k2);
    assert(sl_insert(s, k, v) == rem.push((k, v)));
    if k2 == k {
        assert(!sl_contains(rem, k2));
        assert(sl_lookup(rem.push((k, v)), k2) == Some(v));
    } else {
        assert(sl_lookup(rem, k2) == sl_lookup(s, k2));
        assert(sl_lookup(rem.push((k, v)), k2) == sl_lookup(s, k2));
    }
}

/// What a lookup sees after a pair is appended: the old answer where there
/// was one, else the new pair where its key matches.
pub proof fn lemma_sl_lookup_push<T>(s: Seq<(u32, T)>, p: (u32, T), k2: u32)
    ensures
        sl_lookup(s.push(p), k2) == if sl_contains(s, k2) {
            sl_lookup(s, k2)
        } else if p.0 == k2 {
            Some(p.1)
        } else {
            None::<T>
        },
    decreases s.len(),
{
    if s.len() == 0 {
        assert(s.push(p)[0] == p);
        assert(s.push(p).drop_first() =~= Seq::<(u32, T)>::empty());
        assert(sl_lookup(s.push(p).drop_first(), k2) is None);
        assert(sl_lookup(s, k2) is None);
    } else {
        lemma_sl_lookup_push(s.drop_first(), p, k2);
        assert(s.push(p)[0] == s[0]);
        assert(s.push(p).drop_first() =~= s.drop_first().push(p));
    }
}

/// A key is contained exactly when some pair carries it.
pub proof fn lemma_sl_contains_iff<T>(s: Seq<(u32, T)>, k: u32)
    ensures
        sl_contains(s, k) <==> exists|i: int| 0 <= i < s.len() && (#[trigger] s[i]).0 == k,
    decreases s.len(),
{
    if s.len() > 0 {
        lemma_sl_contains_iff(s.drop_first(), k);
        assert(forall|j: int| 0 <= j < s.drop_first().len() ==> (#[trigger] s.drop_first()[j])
            == s[j + 1]);
        if sl_contains(s.drop_first(), k) {
            let i = choose|i: int| 0 <= i < s.drop_first().len() && (#[trigger] s.drop_first()[i]).0
                == k;
            assert(s[i + 1].0 == k);
        }
        if exists|i: int| 0 <= i < s.len() && (#[trigger] s[i]).0 == k {
            let i = choose|i: int| 0 <= i < s.len() && (#[trigger] s[i]).0 == k;
            if i > 0 {
                assert(s.drop_first()[i - 1].0 == k);
            }
        }
    }
}

/// Removal keeps the keys pairwise distinct.
pub proof fn lemma_sl_remove_wf<T>(s: Seq<(u32, T)>, k: u32)
    requires
        sl_wf(s),
    ensures
        sl_wf(sl_remove(s, k)),
        !sl_contains(sl_remove(s, k), k),
    decreases s.len(),
{
    lemma_sl_lookup_remove(s, k, k);
    if s.len() > 0 {
        assert(forall|j: int| 0 <= j < s.drop_first().len() ==> (#[trigger] s.drop_first()[j])
            == s[j + 1]);
        if s[0].0 != k {
            lemma_sl_remove_wf(s.drop_first(), k);
            let rest = sl_remove(s.drop_first(), k);
            let whole = seq![s[0]] + rest;
            assert(forall|j: int| 0 <= j < rest.len() ==> (#[trigger] whole[j + 1]) == rest[j]);
            assert forall|i: int, j: int| 0 <= i < j < whole.len() implies (#[trigger] whole[i]).0
                != (#[trigger] whole[j]).0 by {
                lemma_sl_remove_keeps_members(s.drop_first(), k, j - 1);
                if i > 0 {
                    lemma_sl_remove_keeps_members(s.drop_first(), k, i - 1);
                }
            }
        }
    }
}

/// Every pair that survives a removal stood somewhere in the sequence
/// before it.
pub proof fn lemma_sl_remove_keeps_members<T>(s: Seq<(u32, T)>, k: u32, i: int)
    requires
        0 <= i < sl_remove(s, k).len(),
    ensures
        exists|j: int| 0 <= j < s.len() && (#[trigger] s[j]) == sl_remove(s, k)[i],
    decreases s.len(),
{
    if s.len() > 0 {
        if s[0].0 == k {
            assert(s.drop_first()[i] == s[i + 1]);
        } else {
            let rest = sl_remove(s.drop_first(), k);
            let whole = seq![s[0]] + rest;
            if i == 0 {
                assert(whole[0] == s[0]);
            } else {
                lemma_sl_remove_keeps_members(s.drop_first(), k, i - 1);
                let j = choose|j: int|
                    0 <= j < s.drop_first().len() && (#[trigger] s.drop_first()[j]) == rest[i - 1];
                assert(s[j + 1] == s.drop_first()[j]);
                assert(whole[i] == rest[i - 1]);
            }
        }
    }
}

/// Removing an absent key changes nothing.
pub proof fn lemma_sl_remove_absent<T>(s: Seq<(u32, T)>, k: u32)
    requires
        !sl_contains(s, k),
    ensures
        sl_remove(s, k) == s,
{
    lemma_sl_contains_iff(s, k);
    lemma_sl_remove_none(s, k);
}

/// Insertion keeps the keys pairwise distinct.
pub proof fn lemma_sl_insert_wf<T>(s: Seq<(u32, T)>, k: u32, v: T)
    requires
        sl_wf(s),
    ensures
        sl_wf(sl_insert(s, k, v)),
{
    lemma_sl_remove_wf(s, k);
    let r = sl_remove(s, k);
    let w = r.push((k, v));
    assert forall|i: int, j: int| 0 <= i < j < w.len() implies (#[trigger] w[i]).0
        != (#[trigger] w[j]).0 by {
        if j == w.len() - 1 {
            if w[i].0 == k {
                lemma_sl_lookup_at(r, k, i);
            }
        }
    }
}

/// An insertion-ordered map from object id to `T`, with each id stored at
/// most once.  Its abstract value is the stored pairs, oldest first.
pub struct KeyMap<T> {
    pairs: Vec<(u32, T)>,
}

impl<T> View for KeyMap<T> {
    type V = Seq<(u32, T)>;

    closed spec fn view(&self) -> Seq<(u32, T)> {
        self.pairs@
    }
}

impl<T> KeyMap<T> {
    /// Holds of every `KeyMap` value; exec code holding one can learn it
    /// with `use_type_invariant`.
    #[verifier::type_invariant]
    pub open spec fn wf(self) -> bool {
        sl_wf(self@)
    }

    pub fn new() -> (r: KeyMap<T>)
        ensures
            r@ == Seq::<(u32, T)>::empty(),
    {
        KeyMap { pairs: Vec::new() }
    }

    pub fn len(&self) -> (n: usize)
        ensures
            n == self@.len(),
    {
        self.pairs.len()
    }

    pub fn is_empty(&self) -> (r: bool)
        ensures
            r == (self@.len() == 0),
    {
        self.pairs.is_empty()
    }

    /// The position of the pair stored under `k`, if any.
    fn find_index(&self, k: u32) -> (r: Option<usize>)
        ensures
            match r {
                Some(i) => i < self@.len() && self@[i as int].0 == k && (forall|j: int|
                    0 <= j < i ==> (#[trigger] self@[j]).0 != k),
                None => forall|j: int| 0 <= j < self@.len() ==> (#[trigger] self@[j]).0 != k,
            },
    {
        let mut i: usize = 0;
        while i < self.pairs.len()
            invariant
                i <= self@.len(),
                forall|j: int| 0 <= j < i ==> (#[trigger] self@[j]).0 != k,
            decreases self@.len() - i,
        {
            if self.pairs[i].0 == k {
                return Some(i);
            }
            i = i + 1;
        }
        None
    }

    pub fn contains_key(&self, k: u32) -> (r: bool)
        ensures
            r == sl_contains(self@, k),
    {
        match self.find_index(k) {
            Some(i) => {
                proof {
                    lemma_sl_lookup_at(self@, k, i as int);
                }
                true
            },
            None => {
                proof {
                    lemma_sl_lookup_none(self@, k);
                }
                false
            },
        }
    }

    pub fn get(&self, k: u32) -> (r: Option<&T>)
        ensures
            match r {
                Some(v) => sl_lookup(self@, k) == Some(*v),
                None => sl_lookup(self@, k) is None,
            },
    {
        match self.find_index(k) {
            Some(i) => {
                proof {
                    lemma_sl_lookup_at(self@, k, i as int);
                }
                Some(&self.pairs[i].1)
            },
            None => {
                proof {
                    lemma_sl_lookup_none(self@, k);
                }
                None
            },
        }
    }

    /// Takes the value stored under `k` out, if any.
    pub fn remove(&mut self, k: u32) -> (r: Option<T>)
        ensures
            final(self)@ == sl_remove(old(self)@, k),
            r == sl_lookup(old(self)@, k),
    {
        proof {
            use_type_invariant(&*self);
        }
        let idx = self.find_index(k);
        let mut pairs: Vec<(u32, T)> = Vec::new();
        core::mem::swap(&mut pairs, &mut self.pairs);
        let r = match idx {
            Some(i) => {
                proof {
                    lemma_sl_lookup_at(pairs@, k, i as int);
                    lemma_sl_remove_at(pairs@, k, i as int);
                }
                let p = pairs.remove(i);
                Some(p.1)
            },
            None => {
                proof {
                    lemma_sl_lookup_none(pairs@, k);
                    lemma_sl_remove_none(pairs@, k);
                }
                None
            },
        };
        proof {
            lemma_sl_remove_wf(old(self)@, k);
        }
        self.pairs = pairs;
        r
    }

    /// Stores `v` under `k`: any old pair under `k` leaves, the new pair
    /// goes to the back.
    pub fn insert(&mut self, k: u32, v: T)
        ensures
            final(self)@ == sl_insert(old(self)@, k, v),
    {
        proof {
            use_type_invariant(&*self);
        }
        let _ = self.remove(k);
        let mut pairs: Vec<(u32, T)> = Vec::new();
        core::mem::swap(&mut pairs, &mut self.pairs);
        pairs.push((k, v));
        proof {
            lemma_sl_insert_wf(old(self)@, k, v);
        }
        self.pairs = pairs;
    }

    /// Empties the map and hands the pairs out, oldest first.
    pub fn take_pairs(&mut self) -> (r: Vec<(u32, T)>)
        ensures
            r@ == old(self)@,
            final(self)@ == Seq::<(u32, T)>::empty(),
    {
        let mut pairs: Vec<(u32, T)> = Vec::new();
        core::mem::swap(&mut pairs, &mut self.pairs);
        pairs
    }

    /// Drops every pair.
    pub fn clear(&mut self)
        ensures
            final(self)@ == Seq::<(u32, T)>::empty(),
    {
        let mut pairs: Vec<(u32, T)> = Vec::new();
        core::mem::swap(&mut pairs, &mut self.pairs);
    }
}

} // verus!
