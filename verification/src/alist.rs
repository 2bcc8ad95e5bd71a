//! Association-list maps with a `Map` view.
//!
//! The registry's persistent maps are held as vectors of key/value entries
//! with pairwise-distinct keys.  Every operation is specified against the
//! mathematical `Map` from key views to value views, so the contracts of the
//! state layer read as map updates.

use vstd::prelude::*;

verus! {

/// A key type of an association list: its executable equality decides
/// equality of the views.
pub trait AKey: DeepView + Sized {
    /// Decides whether two keys have the same view.
    fn key_eq(&self, other: &Self) -> (r: bool)
        ensures
            r == (self.deep_view() == other.deep_view()),
    ;
}

impl AKey for u64 {
    fn key_eq(&self, other: &Self) -> (r: bool)
        ensures
            r == (self.deep_view() == other.deep_view()),
    {
        *self == *other
    }
}

impl AKey for String {
    fn key_eq(&self, other: &Self) -> (r: bool)
        ensures
            r == (self.deep_view() == other.deep_view()),
    {
        *self == *other
    }
}

impl AKey for (String, String) {
    fn key_eq(&self, other: &Self) -> (r: bool)
        ensures
            r == (self.deep_view() == other.deep_view()),
    {
        self.0 == other.0 && self.1 == other.1
    }
}

impl AKey for (String, u64) {
    fn key_eq(&self, other: &Self) -> (r: bool)
        ensures
            r == (self.deep_view() == other.deep_view()),
    {
        self.0 == other.0 && self.1 == other.1
    }
}

/// The view of the key of the entry at index `i`.
pub open spec fn key_at<K: AKey, V: DeepView>(s: Seq<(K, V)>, i: int) -> <K as DeepView>::V {
    s[i].0.deep_view()
}

/// The view of the value of the entry at index `i`.
pub open spec fn val_at<K: AKey, V: DeepView>(s: Seq<(K, V)>, i: int) -> <V as DeepView>::V {
    s[i].1.deep_view()
}

/// Some entry carries the key `k`.
pub open spec fn has_key<K: AKey, V: DeepView>(s: Seq<(K, V)>, k: <K as DeepView>::V) -> bool {
    exists|i: int| 0 <= i < s.len() && key_at(s, i) == k
}

/// No two entries carry the same key.
pub open spec fn distinct_keys<K: AKey, V: DeepView>(s: Seq<(K, V)>) -> bool {
    forall|i: int, j: int| 0 <= i < j < s.len() ==> key_at(s, i) != key_at(s, j)
}

/// The index of the entry carrying key `k`.
pub open spec fn index_of_key<K: AKey, V: DeepView>(s: Seq<(K, V)>, k: <K as DeepView>::V) -> int {
    choose|i: int| 0 <= i < s.len() && key_at(s, i) == k
}

/// The map from key views to value views that the entries spell out.
pub open spec fn assoc_map<K: AKey, V: DeepView>(s: Seq<(K, V)>) -> Map<
    <K as DeepView>::V,
    <V as DeepView>::V,
> {
    Map::new(|k: <K as DeepView>::V| has_key(s, k), |k: <K as DeepView>::V| val_at(s, index_of_key(s, k)))
}

/// With distinct keys, the map agrees with every entry.
pub proof fn lemma_map_at<K: AKey, V: DeepView>(s: Seq<(K, V)>, i: int)
    requires
        distinct_keys(s),
        0 <= i < s.len(),
    ensures
        assoc_map(s).contains_key(key_at(s, i)),
        assoc_map(s)[key_at(s, i)] == val_at(s, i),
{
    let k = key_at(s, i);
    assert(has_key(s, k));
    let j = index_of_key(s, k);
    assert(0 <= j < s.len() && key_at(s, j) == k);
    if i < j {
        assert(key_at(s, i) != key_at(s, j));
    } else if j < i {
        assert(key_at(s, j) != key_at(s, i));
    }
    assert(j == i);
}

/// Removing the entry at index `i` removes exactly its key from the map.
pub proof fn lemma_remove_at<K: AKey, V: DeepView>(s: Seq<(K, V)>, i: int)
    requires
        distinct_keys(s),
        0 <= i < s.len(),
    ensures
        distinct_keys(s.remove(i)),
        assoc_map(s.remove(i)) == assoc_map(s).remove(key_at(s, i)),
{
    let t = s.remove(i);
    s.remove_ensures(i);
    assert forall|a: int, b: int| 0 <= a < b < t.len() implies key_at(t, a) != key_at(t, b) by {
        let a0: int = if a < i { a } else { a + 1 };
        let b0: int = if b < i { b } else { b + 1 };
        assert(key_at(t, a) == key_at(s, a0));
        assert(key_at(t, b) == key_at(s, b0));
        assert(key_at(s, a0) != key_at(s, b0));
    }
    assert forall|k: <K as DeepView>::V| #[trigger] assoc_map(t).contains_key(k) <==> assoc_map(
        s,
    ).remove(key_at(s, i)).contains_key(k) by {
        if has_key(t, k) {
            let a = choose|a: int| 0 <= a < t.len() && key_at(t, a) == k;
            let a0: int = if a < i { a } else { a + 1 };
            assert(key_at(s, a0) == k);
            assert(has_key(s, k));
            if k == key_at(s, i) {
                if a0 < i {
                    assert(key_at(s, a0) != key_at(s, i));
                } else {
                    assert(key_at(s, i) != key_at(s, a0));
                }
                assert(false);
            }
        }
        if has_key(s, k) && k != key_at(s, i) {
            let a0 = choose|a0: int| 0 <= a0 < s.len() && key_at(s, a0) == k;
            let a: int = if a0 < i { a0 } else { a0 - 1 };
            assert(a0 != i);
            assert(key_at(t, a) == k);
            assert(has_key(t, k));
        }
    }
    assert forall|k: <K as DeepView>::V| assoc_map(t).contains_key(k) implies assoc_map(t)[k]
        == assoc_map(s).remove(key_at(s, i))[k] by {
        let a = index_of_key(t, k);
        assert(0 <= a < t.len() && key_at(t, a) == k);
        let a0: int = if a < i { a } else { a + 1 };
        assert(key_at(s, a0) == k && val_at(t, a) == val_at(s, a0));
        lemma_map_at(t, a);
        lemma_map_at(s, a0);
    }
    assert(assoc_map(t) =~= assoc_map(s).remove(key_at(s, i)));
}

/// Appending an entry with a fresh key inserts exactly that binding.
pub proof fn lemma_push_fresh<K: AKey, V: DeepView>(s: Seq<(K, V)>, key: K, value: V)
    requires
        distinct_keys(s),
        !has_key(s, key.deep_view()),
    ensures
        distinct_keys(s.push((key, value))),
        assoc_map(s.push((key, value))) == assoc_map(s).insert(key.deep_view(), value.deep_view()),
{
    let t = s.push((key, value));
    assert forall|a: int, b: int| 0 <= a < b < t.len() implies key_at(t, a) != key_at(t, b) by {
        if b < s.len() {
            assert(key_at(t, a) == key_at(s, a) && key_at(t, b) == key_at(s, b));
        } else {
            assert(key_at(t, a) == key_at(s, a));
            assert(key_at(t, b) == key.deep_view());
            assert(has_key(s, key_at(s, a)));
        }
    }
    assert forall|k: <K as DeepView>::V| #[trigger] assoc_map(t).contains_key(k) <==> assoc_map(
        s,
    ).insert(key.deep_view(), value.deep_view()).contains_key(k) by {
        if has_key(t, k) {
            let a = choose|a: int| 0 <= a < t.len() && key_at(t, a) == k;
            if a < s.len() {
                assert(key_at(s, a) == k);
                assert(has_key(s, k));
            } else {
                assert(k == key.deep_view());
            }
        }
        if has_key(s, k) {
            let a = choose|a: int| 0 <= a < s.len() && key_at(s, a) == k;
            assert(key_at(t, a) == k);
            assert(has_key(t, k));
        }
        if k == key.deep_view() {
            assert(key_at(t, s.len() as int) == k);
            assert(has_key(t, k));
        }
    }
    assert forall|k: <K as DeepView>::V| assoc_map(t).contains_key(k) implies assoc_map(t)[k]
        == assoc_map(s).insert(key.deep_view(), value.deep_view())[k] by {
        let a = index_of_key(t, k);
        assert(0 <= a < t.len() && key_at(t, a) == k);
        lemma_map_at(t, a);
        if a < s.len() {
            assert(key_at(s, a) == k && val_at(t, a) == val_at(s, a));
            lemma_map_at(s, a);
            assert(has_key(s, k));
            assert(k != key.deep_view());
        } else {
            assert(k == key.deep_view() && val_at(t, a) == value.deep_view());
        }
    }
    assert(assoc_map(t) =~= assoc_map(s).insert(key.deep_view(), value.deep_view()));
}

/// A map held as a vector of key/value entries with pairwise-distinct keys.
pub struct AList<K, V> {
    pub entries: Vec<(K, V)>,
}

impl<K: AKey, V: DeepView> View for AList<K, V> {
    type V = Map<<K as DeepView>::V, <V as DeepView>::V>;

    open spec fn view(&self) -> Self::V {
        assoc_map(self.entries@)
    }
}

impl<K: AKey, V: DeepView> AList<K, V> {
    /// The representation holds no two entries with the same key.
    pub open spec fn wf(self) -> bool {
        distinct_keys(self.entries@)
    }

    /// An empty map.
    pub fn new() -> (r: Self)
        ensures
            r.wf(),
            r@ == Map::<<K as DeepView>::V, <V as DeepView>::V>::empty(),
    {
        let r = AList { entries: Vec::new() };
        proof {
            assert(r@ =~= Map::<<K as DeepView>::V, <V as DeepView>::V>::empty());
        }
        r
    }

    /// The index of the entry carrying `key`, if one exists.
    fn index_of(&self, key: &K) -> (r: Option<usize>)
        ensures
            match r {
                Some(i) => i < self.entries.len() && key_at(self.entries@, i as int)
                    == key.deep_view(),
                None => !has_key(self.entries@, key.deep_view()),
            },
    {
        let mut i: usize = 0;
        while i < self.entries.len()
            invariant
                i <= self.entries.len(),
                forall|j: int| 0 <= j < i ==> key_at(self.entries@, j) != key.deep_view(),
            decreases self.entries.len() - i,
        {
            let e = &self.entries[i];
            if e.0.key_eq(key) {
                return Some(i);
            }
            i = i + 1;
        }
        None
    }

    /// Whether `key` is bound.
    pub fn contains_key(&self, key: &K) -> (r: bool)
        ensures
            r == self@.contains_key(key.deep_view()),
    {
        match self.index_of(key) {
            Some(i) => {
                proof {
                    assert(key_at(self.entries@, i as int) == key.deep_view());
                    assert(has_key(self.entries@, key.deep_view()));
                }
                true
            },
            None => false,
        }
    }

    /// The value bound to `key`, if any.
    pub fn get(&self, key: &K) -> (r: Option<&V>)
        requires
            self.wf(),
        ensures
            match r {
                Some(v) => self@.contains_key(key.deep_view()) && v.deep_view()
                    == self@[key.deep_view()],
                None => !self@.contains_key(key.deep_view()),
            },
    {
        match self.index_of(key) {
            Some(i) => {
                proof {
                    lemma_map_at(self.entries@, i as int);
                }
                let e = &self.entries[i];
                Some(&e.1)
            },
            None => None,
        }
    }

    /// Removes the binding of `key` and hands its value out.
    pub fn take(&mut self, key: &K) -> (r: Option<V>)
        requires
            old(self).wf(),
        ensures
            final(self).wf(),
            final(self)@ == old(self)@.remove(key.deep_view()),
            match r {
                Some(v) => old(self)@.contains_key(key.deep_view()) && v.deep_view()
                    == old(self)@[key.deep_view()],
                None => !old(self)@.contains_key(key.deep_view()),
            },
    {
        match self.index_of(key) {
            Some(i) => {
                proof {
                    lemma_map_at(self.entries@, i as int);
                    lemma_remove_at(self.entries@, i as int);
                }
                let e = self.entries.remove(i);
                Some(e.1)
            },
            None => {
                proof {
                    assert(old(self)@ =~= old(self)@.remove(key.deep_view()));
                }
                None
            },
        }
    }

    /// Binds `key` to `value`, replacing any earlier binding.
    pub fn set(&mut self, key: K, value: V)
        requires
            old(self).wf(),
        ensures
            final(self).wf(),
            final(self)@ == old(self)@.insert(key.deep_view(), value.deep_view()),
    {
        let _ = self.take(&key);
        proof {
            assert(!self@.contains_key(key.deep_view()));
            assert(!has_key(self.entries@, key.deep_view()));
            lemma_push_fresh(self.entries@, key, value);
        }
        self.entries.push((key, value));
        proof {
            assert(self@ =~= old(self)@.insert(key.deep_view(), value.deep_view()));
        }
    }
}

} // verus!
