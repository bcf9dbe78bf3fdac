//! A map from text keys to values that keeps its entries in the order in which
//! their keys came.
use crate::text;
use vstd::prelude::*;
use vstd::string::*;

verus! {

/// A map from text to values.
#[derive(Debug, Clone, PartialEq, Eq)]
pub struct Registry<V> {
    entries: Vec<(String, V)>,
}

/// `k` is the key of the entry at `i`.
pub open spec fn key_at<V>(e: Seq<(String, V)>, i: int, k: Seq<char>) -> bool {
    0 <= i < e.len() && e[i].0@ == k
}

/// The key stands in the entries.
pub open spec fn has_key<V>(e: Seq<(String, V)>, k: Seq<char>) -> bool {
    exists|i: int| #[trigger] key_at(e, i, k)
}

/// Where the key stands in the entries.
pub open spec fn place_of<V>(e: Seq<(String, V)>, k: Seq<char>) -> int {
    choose|i: int| #[trigger] key_at(e, i, k)
}

/// No key stands twice in the entries.
pub open spec fn distinct<V>(e: Seq<(String, V)>) -> bool {
    forall|i: int, j: int| 0 <= i < j < e.len() ==> #[trigger] e[i].0@ != #[trigger] e[j].0@
}

/// The map that entries stand for.
pub open spec fn map_of<V: View>(e: Seq<(String, V)>) -> Map<Seq<char>, V::V> {
    Map::new(|k: Seq<char>| has_key(e, k), |k: Seq<char>| e[place_of(e, k)].1@)
}

impl<V: View> View for Registry<V> {
    type V = Map<Seq<char>, V::V>;

    closed spec fn view(&self) -> Map<Seq<char>, V::V> {
        map_of(self.entries@)
    }
}

pub proof fn lemma_entry<V: View>(e: Seq<(String, V)>, i: int)
    requires
        distinct(e),
        0 <= i < e.len(),
    ensures
        map_of(e).contains_key(e[i].0@),
        map_of(e)[e[i].0@] == e[i].1@,
{
    let k = e[i].0@;
    assert(key_at(e, i, k));
    let p = place_of(e, k);
    assert(key_at(e, p, k));
}

/// What the map says of a key once the value at one place was replaced.
proof fn lemma_set<V: View>(e: Seq<(String, V)>, f: Seq<(String, V)>, i: int)
    requires
        distinct(e),
        0 <= i < e.len(),
        f.len() == e.len(),
        f[i].0@ == e[i].0@,
        forall|j: int| 0 <= j < e.len() && j != i ==> f[j] == e[j],
    ensures
        distinct(f),
        map_of(f) == map_of(e).insert(e[i].0@, f[i].1@),
{
    assert forall|a: int, b: int| 0 <= a < b < f.len() implies #[trigger] f[a].0@
        != #[trigger] f[b].0@ by {
        assert(f[a].0@ == e[a].0@);
        assert(f[b].0@ == e[b].0@);
    }
    let m = map_of(e).insert(e[i].0@, f[i].1@);
    assert forall|k: Seq<char>| #![auto] map_of(f).contains_key(k) == m.contains_key(k) by {
        if has_key(f, k) {
            let p = place_of(f, k);
            assert(key_at(f, p, k));
            assert(key_at(e, p, k));
        }
        if has_key(e, k) {
            let p = place_of(e, k);
            assert(key_at(e, p, k));
            assert(key_at(f, p, k));
        }
        if k == e[i].0@ {
            assert(key_at(f, i, k));
        }
    }
    assert forall|k: Seq<char>| #![auto] map_of(f).contains_key(k) implies map_of(f)[k] == m[k] by {
        let p = place_of(f, k);
        assert(key_at(f, p, k));
        lemma_entry(f, p);
        lemma_entry(e, p);
        if k == e[i].0@ {
            assert(p == i);
        }
    }
    assert(map_of(f) =~= m);
}

proof fn lemma_push<V: View>(e: Seq<(String, V)>, x: (String, V))
    requires
        distinct(e),
        !has_key(e, x.0@),
    ensures
        distinct(e.push(x)),
        map_of(e.push(x)) == map_of(e).insert(x.0@, x.1@),
{
    let f = e.push(x);
    assert forall|a: int, b: int| 0 <= a < b < f.len() implies #[trigger] f[a].0@
        != #[trigger] f[b].0@ by {
        if b == e.len() {
            assert(!key_at(e, a, x.0@));
        }
    }
    let m = map_of(e).insert(x.0@, x.1@);
    assert forall|k: Seq<char>| #![auto] map_of(f).contains_key(k) == m.contains_key(k) by {
        if has_key(f, k) {
            let p = place_of(f, k);
            assert(key_at(f, p, k));
            if p < e.len() {
                assert(key_at(e, p, k));
            }
        }
        if has_key(e, k) {
            let p = place_of(e, k);
            assert(key_at(e, p, k));
            assert(key_at(f, p, k));
        }
        assert(key_at(f, e.len() as int, x.0@));
    }
    assert forall|k: Seq<char>| #![auto] map_of(f).contains_key(k) implies map_of(f)[k] == m[k] by {
        let p = place_of(f, k);
        assert(key_at(f, p, k));
        if p < e.len() {
            assert(key_at(e, p, k));
            lemma_entry(e, p);
        }
    }
    assert(map_of(f) =~= m);
}

proof fn lemma_remove<V: View>(e: Seq<(String, V)>, i: int)
    requires
        distinct(e),
        0 <= i < e.len(),
    ensures
        distinct(e.remove(i)),
        map_of(e.remove(i)) == map_of(e).remove(e[i].0@),
{
    let f = e.remove(i);
    assert(forall|j: int| 0 <= j < f.len() ==> f[j] == (if j < i {
        e[j]
    } else {
        e[j + 1]
    }));
    let m = map_of(e).remove(e[i].0@);
    assert forall|k: Seq<char>| #![auto] map_of(f).contains_key(k) == m.contains_key(k) by {
        if has_key(f, k) {
            let p = place_of(f, k);
            assert(key_at(f, p, k));
            let q = if p < i {
                p
            } else {
                p + 1
            };
            assert(key_at(e, q, k));
            assert(q != i);
        }
        if has_key(e, k) && k != e[i].0@ {
            let p = place_of(e, k);
            assert(key_at(e, p, k));
            assert(key_at(
                f,
                if p < i {
                    p
                } else {
                    p - 1
                },
                k,
            ));
        }
    }
    assert forall|k: Seq<char>| #![auto] map_of(f).contains_key(k) implies map_of(f)[k] == m[k] by {
        let p = place_of(f, k);
        assert(key_at(f, p, k));
        let q = if p < i {
            p
        } else {
            p + 1
        };
        lemma_entry(e, q);
    }
    assert(map_of(f) =~= m);
}

impl<V: View> Registry<V> {
    /// No key stands twice.
    pub closed spec fn wf(&self) -> bool {
        distinct(self.entries@)
    }

    /// The keys in the order in which they came.
    pub closed spec fn keys(&self) -> Seq<Seq<char>> {
        self.entries@.map_values(|e: (String, V)| e.0@)
    }

    /// An empty map.
    pub fn new() -> (r: Self)
        ensures
            r.wf(),
            r@ == Map::<Seq<char>, V::V>::empty(),
            r.keys() == Seq::<Seq<char>>::empty(),
    {
        let r = Registry { entries: Vec::new() };
        proof {
            assert(r@ =~= Map::<Seq<char>, V::V>::empty());
            assert(r.keys() =~= Seq::<Seq<char>>::empty());
        }
        r
    }

    /// The keys are those of the map, each once.
    pub proof fn lemma_keys(&self)
        requires
            self.wf(),
        ensures
            self.keys().no_duplicates(),
            forall|k: Seq<char>| #![auto] self.keys().contains(k) == self@.contains_key(k),
    {
        let e = self.entries@;
        let ks = self.keys();
        assert forall|i: int, j: int| 0 <= i < ks.len() && 0 <= j < ks.len() && i != j implies ks[i]
            != ks[j] by {
            assert(ks[i] == e[i].0@ && ks[j] == e[j].0@);
        }
        assert forall|k: Seq<char>| #![auto] ks.contains(k) == self@.contains_key(k) by {
            if ks.contains(k) {
                let i = ks.index_of(k);
                assert(ks[i] == e[i].0@);
                assert(key_at(e, i, k));
            }
            if self@.contains_key(k) {
                let i = place_of(e, k);
                assert(key_at(e, i, k));
                assert(ks[i] == k);
            }
        }
    }

    pub fn len(&self) -> (r: usize)
        ensures
            r == self.keys().len(),
    {
        self.entries.len()
    }

    fn find(&self, key: &str) -> (r: Option<usize>)
        ensures
            match r {
                Some(i) => key_at(self.entries@, i as int, key@),
                None => !has_key(self.entries@, key@),
            },
    {
        let mut i: usize = 0;
        while i < self.entries.len()
            invariant
                i <= self.entries@.len(),
                forall|j: int| 0 <= j < i ==> !key_at(self.entries@, j, key@),
            decreases self.entries@.len() - i,
        {
            if text::same(self.entries[i].0.as_str(), key) {
                return Some(i);
            }
            i += 1;
        }
        None
    }

    pub fn contains_key(&self, key: &str) -> (r: bool)
        ensures
            r == self@.contains_key(key@),
    {
        match self.find(key) {
            Some(_) => true,
            None => false,
        }
    }

    pub fn get(&self, key: &str) -> (r: Option<&V>)
        requires
            self.wf(),
        ensures
            match r {
                Some(v) => self@.contains_key(key@) && v@ == self@[key@],
                None => !self@.contains_key(key@),
            },
    {
        match self.find(key) {
            Some(i) => {
                proof {
                    lemma_entry(self.entries@, i as int);
                }
                Some(&self.entries[i].1)
            },
            None => None,
        }
    }

    pub fn get_mut(&mut self, key: &str) -> (r: Option<&mut V>)
        requires
            old(self).wf(),
        ensures
            match r {
                Some(v) => {
                    &&& old(self)@.contains_key(key@)
                    &&& v@ == old(self)@[key@]
                    &&& final(self).wf()
                    &&& final(self).keys() == old(self).keys()
                    &&& final(self)@ == old(self)@.insert(key@, final(v)@)
                },
                None => !old(self)@.contains_key(key@) && *final(self) == *old(self),
            },
    {
        match self.find(key) {
            Some(i) => Some(self.value_mut(i)),
            None => None,
        }
    }

    /// Gives a key its value.
    pub fn insert(&mut self, key: String, value: V)
        requires
            old(self).wf(),
        ensures
            final(self).wf(),
            final(self)@ == old(self)@.insert(key@, value@),
            final(self).keys() == (if old(self)@.contains_key(key@) {
                old(self).keys()
            } else {
                old(self).keys().push(key@)
            }),
    {
        let ghost e = self.entries@;
        let ghost ks = self.keys();
        match self.find(key.as_str()) {
            Some(i) => {
                self.entries.set(i, (key, value));
                proof {
                    lemma_set(e, self.entries@, i as int);
                    assert(self.keys() =~= ks);
                }
            },
            None => {
                proof {
                    lemma_push(e, (key, value));
                }
                self.entries.push((key, value));
                proof {
                    assert(self.keys() =~= ks.push(key@));
                }
            },
        }
    }

    /// Takes a key out, and says whether it was there.
    pub fn remove(&mut self, key: &str) -> (r: bool)
        requires
            old(self).wf(),
        ensures
            final(self).wf(),
            final(self)@ == old(self)@.remove(key@),
            r == old(self)@.contains_key(key@),
    {
        match self.find(key) {
            Some(i) => {
                proof {
                    lemma_remove(self.entries@, i as int);
                }
                self.entries.remove(i);
                true
            },
            None => {
                proof {
                    assert(self@ =~= self@.remove(key@));
                }
                false
            },
        }
    }

    /// The key at a place.
    pub fn key(&self, i: usize) -> (r: &str)
        requires
            i < self.keys().len(),
        ensures
            r@ == self.keys()[i as int],
    {
        self.entries[i].0.as_str()
    }

    /// The value at a place.
    pub fn value(&self, i: usize) -> (r: &V)
        requires
            self.wf(),
            i < self.keys().len(),
        ensures
            self@.contains_key(self.keys()[i as int]),
            r@ == self@[self.keys()[i as int]],
    {
        proof {
            lemma_entry(self.entries@, i as int);
        }
        &self.entries[i].1
    }

    /// The value at a place, to change it.
    pub fn value_mut(&mut self, i: usize) -> (r: &mut V)
        requires
            old(self).wf(),
            i < old(self).keys().len(),
        ensures
            ({
                let k = old(self).keys()[i as int];
                &&& old(self)@.contains_key(k)
                &&& r@ == old(self)@[k]
                &&& final(self).wf()
                &&& final(self).keys() == old(self).keys()
                &&& final(self)@ == old(self)@.insert(k, final(r)@)
            }),
    {
        let ghost e = self.entries@;
        let ghost k = self.keys()[i as int];
        proof {
            lemma_entry(e, i as int);
            assert forall|f: Seq<(String, V)>|
                f.len() == e.len() && f[i as int].0 == e[i as int].0 && (forall|j: int|
                    0 <= j < e.len() && j != i ==> f[j] == e[j]) implies #[trigger] distinct(f)
                && map_of(f) == map_of(e).insert(k, f[i as int].1@) && f.map_values(
                |x: (String, V)| x.0@,
            ) == e.map_values(|x: (String, V)| x.0@) by {
                lemma_set(e, f, i as int);
                assert(f.map_values(|x: (String, V)| x.0@) =~= e.map_values(
                    |x: (String, V)| x.0@,
                ));
            }
        }
        &mut self.entries[i].1
    }
}

} // verus!
