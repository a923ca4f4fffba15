//! A small association map from `u32` ids to values, with a mathematical
//! `Map` view. Later entries for the same key override earlier ones, and
//! reads scan from the back, so no uniqueness invariant is needed.
use vstd::prelude::*;

verus! {

/// The map a sequence of `(key, value)` entries denotes: the last entry for
/// each key wins.
pub open spec fn assoc_view<V: View>(s: Seq<(u32, V)>) -> Map<u32, V::V>
    decreases s.len(),
{
    if s.len() == 0 {
        Map::empty()
    } else {
        assoc_view(s.drop_last()).insert(s.last().0, s.last().1@)
    }
}

/// A key is present exactly when some entry carries it.
pub proof fn lemma_assoc_contains<V: View>(s: Seq<(u32, V)>, k: u32)
    ensures
        assoc_view(s).contains_key(k) <==> exists|i: int| 0 <= i < s.len() && s[i].0 == k,
    decreases s.len(),
{
    if s.len() > 0 {
        lemma_assoc_contains(s.drop_last(), k);
        if s.last().0 != k && exists|i: int| 0 <= i < s.len() && s[i].0 == k {
            let i = choose|i: int| 0 <= i < s.len() && s[i].0 == k;
            assert(s.drop_last()[i] == s[i]);
        }
    }
}

/// The value a key maps to is the one of its last entry.
pub proof fn lemma_assoc_get<V: View>(s: Seq<(u32, V)>, k: u32, i: int)
    requires
        0 <= i < s.len(),
        s[i].0 == k,
        forall|j: int| i < j < s.len() ==> s[j].0 != k,
    ensures
        assoc_view(s).contains_key(k),
        assoc_view(s)[k] == s[i].1@,
    decreases s.len(),
{
    if i == s.len() - 1 {
    } else {
        assert(s.drop_last()[i] == s[i]);
        lemma_assoc_get(s.drop_last(), k, i);
    }
}

/// Overwriting the last entry of a key updates the denoted map at that key.
pub proof fn lemma_assoc_update_last<V: View>(s: Seq<(u32, V)>, i: int, k: u32, v: V)
    requires
        0 <= i < s.len(),
        s[i].0 == k,
        forall|j: int| i < j < s.len() ==> s[j].0 != k,
    ensures
        assoc_view(s.update(i, (k, v))) == assoc_view(s).insert(k, v@),
    decreases s.len(),
{
    let t = s.update(i, (k, v));
    if i == s.len() - 1 {
        assert(t.drop_last() =~= s.drop_last());
        assert(assoc_view(t) =~= assoc_view(s).insert(k, v@));
    } else {
        assert(t.drop_last() =~= s.drop_last().update(i, (k, v)));
        lemma_assoc_update_last(s.drop_last(), i, k, v);
        assert(t.last() == s.last());
        assert(s.last().0 != k);
        assert(assoc_view(t) =~= assoc_view(s).insert(k, v@));
    }
}

/// Appending an entry inserts its pair into the denoted map.
pub proof fn lemma_assoc_push<V: View>(s: Seq<(u32, V)>, k: u32, v: V)
    ensures
        assoc_view(s.push((k, v))) == assoc_view(s).insert(k, v@),
{
    assert(s.push((k, v)).drop_last() =~= s);
    assert(s.push((k, v)).last() == (k, v));
}

/// Two entry sequences with the same keys and view-equal values denote the
/// same map.
pub proof fn lemma_assoc_congruence<V: View>(a: Seq<(u32, V)>, b: Seq<(u32, V)>)
    requires
        a.len() == b.len(),
        forall|i: int| 0 <= i < a.len() ==> a[i].0 == b[i].0 && a[i].1@ == b[i].1@,
    ensures
        assoc_view(a) == assoc_view(b),
    decreases a.len(),
{
    if a.len() > 0 {
        assert(forall|i: int| 0 <= i < a.len() - 1
            ==> a.drop_last()[i].0 == b.drop_last()[i].0
                && a.drop_last()[i].1@ == b.drop_last()[i].1@);
        lemma_assoc_congruence(a.drop_last(), b.drop_last());
        assert(a[a.len() - 1].0 == b[b.len() - 1].0);
        assert(a[a.len() - 1].1@ == b[b.len() - 1].1@);
    }
}

/// A value that can be copied so that the copy's view equals the original's.
pub trait Dup: View + Sized {
    fn dup(&self) -> (r: Self)
        ensures
            r@ == self@,
    ;
}

impl Dup for u32 {
    fn dup(&self) -> (r: u32)
        ensures
            r@ == self@,
    {
        *self
    }
}

impl Dup for String {
    fn dup(&self) -> (r: String)
        ensures
            r@ == self@,
    {
        self.clone()
    }
}

/// An id-keyed table of values, read through its `Map` view.
#[derive(Debug)]
pub struct IdMap<V> {
    entries: Vec<(u32, V)>,
}

impl<V: View> View for IdMap<V> {
    type V = Map<u32, V::V>;

    closed spec fn view(&self) -> Map<u32, V::V> {
        assoc_view(self.entries@)
    }
}

impl<V: View> IdMap<V> {
    pub fn new() -> (r: IdMap<V>)
        ensures
            r@ == Map::<u32, V::V>::empty(),
    {
        IdMap { entries: Vec::new() }
    }

    /// Looks the key up; `None` exactly when the map has no entry for it.
    pub fn get(&self, k: u32) -> (r: Option<&V>)
        ensures
            match r {
                Some(v) => self@.contains_key(k) && v@ == self@[k],
                None => !self@.contains_key(k),
            },
    {
        let n = self.entries.len();
        let mut i = n;
        while i > 0
            invariant
                i <= n,
                n == self.entries@.len(),
                forall|j: int| i <= j < n ==> self.entries@[j].0 != k,
            decreases i,
        {
            i = i - 1;
            if self.entries[i].0 == k {
                proof {
                    lemma_assoc_get(self.entries@, k, i as int);
                }
                return Some(&self.entries[i].1);
            }
        }
        proof {
            lemma_assoc_contains(self.entries@, k);
        }
        None
    }

    /// Binds the key to the value, overriding any earlier binding.
    pub fn set(&mut self, k: u32, v: V)
        ensures
            final(self)@ == old(self)@.insert(k, v@),
    {
        let n = self.entries.len();
        let mut i = n;
        let mut found: Option<usize> = None;
        while i > 0 && found.is_none()
            invariant
                i <= n,
                n == self.entries@.len(),
                self.entries@ == old(self).entries@,
                match found {
                    Some(f) => f < n && self.entries@[f as int].0 == k && i == f
                        && forall|j: int| f < j < n ==> self.entries@[j].0 != k,
                    None => forall|j: int| i <= j < n ==> self.entries@[j].0 != k,
                },
            decreases i + if found.is_none() { 1int } else { 0int },
        {
            i = i - 1;
            if self.entries[i].0 == k {
                found = Some(i);
            }
        }
        match found {
            Some(f) => {
                proof {
                    lemma_assoc_update_last(self.entries@, f as int, k, v);
                }
                self.entries.set(f, (k, v));
            }
            None => {
                proof {
                    lemma_assoc_push(self.entries@, k, v);
                }
                self.entries.push((k, v));
            }
        }
    }
}

impl<V: Dup> IdMap<V> {
    /// A copy whose view equals this map's view.
    pub fn duplicate(&self) -> (r: IdMap<V>)
        ensures
            r@ == self@,
    {
        let n = self.entries.len();
        let mut entries: Vec<(u32, V)> = Vec::new();
        let mut i: usize = 0;
        while i < n
            invariant
                i <= n,
                n == self.entries@.len(),
                entries@.len() == i,
                forall|j: int| 0 <= j < i ==> entries@[j].0 == self.entries@[j].0
                    && entries@[j].1@ == self.entries@[j].1@,
            decreases n - i,
        {
            let k = self.entries[i].0;
            let v = self.entries[i].1.dup();
            entries.push((k, v));
            i = i + 1;
        }
        proof {
            lemma_assoc_congruence(entries@, self.entries@);
        }
        IdMap { entries }
    }
}

} // verus!
