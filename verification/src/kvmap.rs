//! A small verified key-value store backed by a vector of pairs.
//!
//! The broker keeps every registry and balance pool in one of these
//! maps, so all of its state is visible to the verifier as a
//! mathematical `Map` from key views to value views.

use vstd::prelude::*;

verus! {

/// Keys of a [`KvMap`]: cloneable values whose executable equality
/// agrees with equality of their views.
pub trait VKey: View + Sized {
    fn key_eq(&self, other: &Self) -> (r: bool)
        ensures
            r == (self@ == other@),
    ;
}

/// Values of a [`KvMap`]: viewable values carrying their own
/// well-formedness condition, which the map maintains for every
/// stored entry.
pub trait VValue: View + Sized {
    spec fn vwf(&self) -> bool;
}

impl VKey for String {
    fn key_eq(&self, other: &Self) -> (r: bool) {
        *self == *other
    }
}

impl VKey for u64 {
    fn key_eq(&self, other: &Self) -> (r: bool) {
        *self == *other
    }
}

impl VValue for u128 {
    open spec fn vwf(&self) -> bool {
        true
    }
}

/// No two entries share a key view.
pub open spec fn unique_keys<K: View, V>(s: Seq<(K, V)>) -> bool {
    forall|i: int, j: int|
        #![trigger s[i], s[j]]
        0 <= i < j < s.len() ==> s[i].0@ != s[j].0@
}

/// Every stored value is well-formed.
pub open spec fn values_wf<K, V: VValue>(s: Seq<(K, V)>) -> bool {
    forall|i: int| 0 <= i < s.len() ==> (#[trigger] s[i]).1.vwf()
}

/// The mathematical map described by a sequence of key-value pairs;
/// later entries shadow earlier ones.
pub open spec fn assoc_map<K: View, V: View>(s: Seq<(K, V)>) -> Map<K::V, V::V>
    decreases s.len(),
{
    if s.len() == 0 {
        Map::empty()
    } else {
        assoc_map(s.drop_last()).insert(s.last().0@, s.last().1@)
    }
}

proof fn lemma_unique_drop_last<K: View, V>(s: Seq<(K, V)>)
    requires
        unique_keys(s),
        s.len() > 0,
    ensures
        unique_keys(s.drop_last()),
{
    assert forall|i: int, j: int| 0 <= i < j < s.drop_last().len() implies (#[trigger] s.drop_last()[i]).0@
        != (#[trigger] s.drop_last()[j]).0@ by {
        assert(s.drop_last()[i] == s[i]);
        assert(s.drop_last()[j] == s[j]);
    }
}

proof fn lemma_assoc_map_index<K: View, V: View>(s: Seq<(K, V)>, i: int)
    requires
        unique_keys(s),
        0 <= i < s.len(),
    ensures
        assoc_map(s).dom().contains(s[i].0@),
        assoc_map(s)[s[i].0@] == s[i].1@,
    decreases s.len(),
{
    if i < s.len() - 1 {
        assert(s.drop_last()[i] == s[i]);
        lemma_unique_drop_last(s);
        lemma_assoc_map_index(s.drop_last(), i);
        assert(s[s.len() - 1].0@ != s[i].0@);
    }
}

proof fn lemma_assoc_map_absent<K: View, V: View>(s: Seq<(K, V)>, k: K::V)
    requires
        forall|i: int| 0 <= i < s.len() ==> (#[trigger] s[i]).0@ != k,
    ensures
        !assoc_map(s).dom().contains(k),
    decreases s.len(),
{
    if s.len() > 0 {
        assert forall|i: int| 0 <= i < s.drop_last().len() implies (#[trigger] s.drop_last()[i]).0@
            != k by {
            assert(s.drop_last()[i] == s[i]);
        }
        lemma_assoc_map_absent(s.drop_last(), k);
        assert(s[s.len() - 1].0@ != k);
    }
}

proof fn lemma_unique_remove<K: View, V>(s: Seq<(K, V)>, i: int)
    requires
        unique_keys(s),
        0 <= i < s.len(),
    ensures
        unique_keys(s.remove(i)),
        forall|j: int| 0 <= j < s.remove(i).len() ==> (#[trigger] s.remove(i)[j]).0@ != s[i].0@,
{
    s.remove_ensures(i);
    assert forall|a: int, b: int| 0 <= a < b < s.remove(i).len() implies (#[trigger] s.remove(i)[a]).0@
        != (#[trigger] s.remove(i)[b]).0@ by {
        if a < i {
            assert(s.remove(i)[a] == s[a]);
        } else {
            assert(s.remove(i)[a] == s[a + 1]);
        }
        if b < i {
            assert(s.remove(i)[b] == s[b]);
        } else {
            assert(s.remove(i)[b] == s[b + 1]);
        }
    }
    assert forall|j: int| 0 <= j < s.remove(i).len() implies (#[trigger] s.remove(i)[j]).0@
        != s[i].0@ by {
        if j < i {
            assert(s.remove(i)[j] == s[j]);
        } else {
            assert(s.remove(i)[j] == s[j + 1]);
        }
    }
}

proof fn lemma_values_wf_remove<K, V: VValue>(s: Seq<(K, V)>, i: int)
    requires
        values_wf(s),
        0 <= i < s.len(),
    ensures
        values_wf(s.remove(i)),
{
    s.remove_ensures(i);
    assert forall|j: int| 0 <= j < s.remove(i).len() implies (#[trigger] s.remove(i)[j]).1.vwf() by {
        if j < i {
            assert(s.remove(i)[j] == s[j]);
            assert(s[j].1.vwf());
        } else {
            assert(s.remove(i)[j] == s[j + 1]);
            assert(s[j + 1].1.vwf());
        }
    }
}

proof fn lemma_assoc_map_remove<K: View, V: View>(s: Seq<(K, V)>, i: int)
    requires
        unique_keys(s),
        0 <= i < s.len(),
    ensures
        assoc_map(s.remove(i)) == assoc_map(s).remove(s[i].0@),
    decreases s.len(),
{
    let k = s[i].0@;
    if i == s.len() - 1 {
        assert(s.remove(i) =~= s.drop_last());
        assert forall|j: int| 0 <= j < s.drop_last().len() implies (#[trigger] s.drop_last()[j]).0@
            != k by {
            assert(s.drop_last()[j] == s[j]);
        }
        lemma_assoc_map_absent::<K, V>(s.drop_last(), k);
        assert(assoc_map(s).remove(k) =~= assoc_map(s.drop_last()));
    } else {
        let dl = s.drop_last();
        let r = s.remove(i);
        lemma_unique_drop_last(s);
        assert(dl[i] == s[i]);
        lemma_assoc_map_remove(dl, i);
        s.remove_ensures(i);
        dl.remove_ensures(i);
        assert(r[r.len() - 1] == s[s.len() - 1]);
        assert(r.drop_last() =~= dl.remove(i)) by {
            assert forall|j: int| 0 <= j < r.drop_last().len() implies r.drop_last()[j] == dl.remove(
                i,
            )[j] by {
                if j < i {
                    assert(r[j] == s[j]);
                    assert(dl.remove(i)[j] == dl[j]);
                    assert(dl[j] == s[j]);
                } else {
                    assert(r[j] == s[j + 1]);
                    assert(dl.remove(i)[j] == dl[j + 1]);
                    assert(dl[j + 1] == s[j + 1]);
                }
            }
        }
        assert(s[s.len() - 1].0@ != k);
        assert(assoc_map(r) == assoc_map(dl.remove(i)).insert(s[s.len() - 1].0@, s[s.len() - 1].1@));
        assert(assoc_map(dl).remove(k).insert(s[s.len() - 1].0@, s[s.len() - 1].1@) =~= assoc_map(
            dl,
        ).insert(s[s.len() - 1].0@, s[s.len() - 1].1@).remove(k));
    }
}

/// An association vector with unique keys, viewed as a `Map`.
#[derive(Debug)]
pub struct KvMap<K, V> {
    entries: Vec<(K, V)>,
}

impl<K: View, V: View> View for KvMap<K, V> {
    type V = Map<K::V, V::V>;

    closed spec fn view(&self) -> Map<K::V, V::V> {
        assoc_map(self.entries@)
    }
}

impl<K: VKey, V: VValue> KvMap<K, V> {
    /// Keys are unique and every stored value is well-formed.
    pub closed spec fn wf(&self) -> bool {
        unique_keys(self.entries@) && values_wf(self.entries@)
    }

    pub fn new() -> (r: Self)
        ensures
            r.wf(),
            r@ == Map::<K::V, V::V>::empty(),
    {
        KvMap { entries: Vec::new() }
    }

    fn find(&self, k: &K) -> (r: Option<usize>)
        ensures
            match r {
                Some(i) => i < self.entries@.len() && self.entries@[i as int].0@ == k@,
                None => forall|i: int|
                    0 <= i < self.entries@.len() ==> (#[trigger] self.entries@[i]).0@ != k@,
            },
    {
        let n = self.entries.len();
        let mut i: usize = 0;
        while i < n
            invariant
                n == self.entries@.len(),
                i <= n,
                forall|j: int| 0 <= j < i ==> (#[trigger] self.entries@[j]).0@ != k@,
            decreases n - i,
        {
            if self.entries[i].0.key_eq(k) {
                return Some(i);
            }
            i = i + 1;
        }
        None
    }

    pub fn contains_key(&self, k: &K) -> (r: bool)
        requires
            self.wf(),
        ensures
            r == self@.dom().contains(k@),
    {
        match self.find(k) {
            Some(i) => {
                proof {
                    lemma_assoc_map_index(self.entries@, i as int);
                }
                true
            },
            None => {
                proof {
                    lemma_assoc_map_absent::<K, V>(self.entries@, k@);
                }
                false
            },
        }
    }

    pub fn get(&self, k: &K) -> (r: Option<&V>)
        requires
            self.wf(),
        ensures
            match r {
                Some(v) => self@.dom().contains(k@) && v@ == self@[k@] && v.vwf(),
                None => !self@.dom().contains(k@),
            },
    {
        match self.find(k) {
            Some(i) => {
                proof {
                    lemma_assoc_map_index(self.entries@, i as int);
                }
                Some(&self.entries[i].1)
            },
            None => {
                proof {
                    lemma_assoc_map_absent::<K, V>(self.entries@, k@);
                }
                None
            },
        }
    }

    pub fn insert(&mut self, k: K, v: V)
        requires
            old(self).wf(),
            v.vwf(),
        ensures
            final(self).wf(),
            final(self)@ == old(self)@.insert(k@, v@),
    {
        let ghost s0 = self.entries@;
        match self.find(&k) {
            Some(i) => {
                proof {
                    lemma_assoc_map_remove(s0, i as int);
                    lemma_unique_remove(s0, i as int);
                    lemma_values_wf_remove(s0, i as int);
                }
                let _ = self.entries.remove(i);
                let ghost s1 = self.entries@;
                self.entries.push((k, v));
                proof {
                    assert(self.entries@.drop_last() =~= s1);
                    assert(assoc_map(self.entries@) =~= assoc_map(s0).insert(k@, v@));
                }
            },
            None => {
                self.entries.push((k, v));
                proof {
                    assert(self.entries@.drop_last() =~= s0);
                }
            },
        }
    }

    pub fn remove(&mut self, k: &K) -> (r: Option<V>)
        requires
            old(self).wf(),
        ensures
            final(self).wf(),
            final(self)@ == old(self)@.remove(k@),
            match r {
                Some(v) => old(self)@.dom().contains(k@) && v@ == old(self)@[k@] && v.vwf(),
                None => !old(self)@.dom().contains(k@) && final(self)@ == old(self)@,
            },
    {
        let ghost s0 = self.entries@;
        match self.find(k) {
            Some(i) => {
                proof {
                    lemma_assoc_map_index(s0, i as int);
                    lemma_assoc_map_remove(s0, i as int);
                    lemma_unique_remove(s0, i as int);
                    lemma_values_wf_remove(s0, i as int);
                }
                let pair = self.entries.remove(i);
                Some(pair.1)
            },
            None => {
                proof {
                    lemma_assoc_map_absent::<K, V>(s0, k@);
                    assert(assoc_map(s0).remove(k@) =~= assoc_map(s0));
                }
                None
            },
        }
    }
}

} // verus!
