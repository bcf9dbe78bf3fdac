//! Texts in their order.
use crate::text;
use vstd::prelude::*;
use vstd::string::*;

verus! {

/// `a` comes before `b` or is the same: the first character in which they differ has the
/// lower number in `a`, or `a` ends first.
pub open spec fn at_most(a: Seq<char>, b: Seq<char>) -> bool
    decreases a.len(),
{
    if a.len() == 0 {
        true
    } else if b.len() == 0 {
        false
    } else if a[0] != b[0] {
        (a[0] as int) < (b[0] as int)
    } else {
        at_most(a.subrange(1, a.len() as int), b.subrange(1, b.len() as int))
    }
}

/// Each text comes before those that follow it, or is the same.
pub open spec fn ascending(s: Seq<Seq<char>>) -> bool {
    forall|i: int, j: int| 0 <= i <= j < s.len() ==> #[trigger] at_most(s[i], s[j])
}

proof fn lemma_reflexive(a: Seq<char>)
    ensures
        at_most(a, a),
    decreases a.len(),
{
    if a.len() > 0 {
        lemma_reflexive(a.subrange(1, a.len() as int));
    }
}

proof fn lemma_transitive(a: Seq<char>, b: Seq<char>, c: Seq<char>)
    requires
        at_most(a, b),
        at_most(b, c),
    ensures
        at_most(a, c),
    decreases a.len(),
{
    if a.len() > 0 && b.len() > 0 && c.len() > 0 && a[0] == b[0] && b[0] == c[0] {
        lemma_transitive(
            a.subrange(1, a.len() as int),
            b.subrange(1, b.len() as int),
            c.subrange(1, c.len() as int),
        );
    }
}

/// Of two texts one comes first, and if both do they are the same.
pub proof fn law_order_is_total(a: Seq<char>, b: Seq<char>)
    ensures
        at_most(a, b) || at_most(b, a),
        at_most(a, b) && at_most(b, a) ==> a == b,
    decreases a.len(),
{
    if a.len() > 0 && b.len() > 0 && a[0] == b[0] {
        let x = a.subrange(1, a.len() as int);
        let y = b.subrange(1, b.len() as int);
        law_order_is_total(x, y);
        assert(a =~= seq![a[0]] + x);
        assert(b =~= seq![b[0]] + y);
    } else if a.len() == 0 && b.len() == 0 {
        assert(a =~= b);
    }
}

/// Whether a text comes before another or is the same.
pub fn is_at_most(a: &str, b: &str) -> (r: bool)
    ensures
        r == at_most(a@, b@),
{
    let x = text::chars_of(a);
    let y = text::chars_of(b);
    let mut i: usize = 0;
    proof {
        assert(x@.subrange(0, x@.len() as int) =~= x@);
        assert(y@.subrange(0, y@.len() as int) =~= y@);
    }
    while i < x.len() && i < y.len()
        invariant
            x@ == a@,
            y@ == b@,
            i <= x@.len(),
            i <= y@.len(),
            at_most(a@, b@) == at_most(
                x@.subrange(i as int, x@.len() as int),
                y@.subrange(i as int, y@.len() as int),
            ),
        decreases x@.len() - i,
    {
        let ghost p = x@.subrange(i as int, x@.len() as int);
        let ghost q = y@.subrange(i as int, y@.len() as int);
        if x[i] != y[i] {
            return x[i] < y[i];
        }
        proof {
            assert(p.subrange(1, p.len() as int) =~= x@.subrange(i + 1, x@.len() as int));
            assert(q.subrange(1, q.len() as int) =~= y@.subrange(i + 1, y@.len() as int));
        }
        i += 1;
    }
    i == x.len()
}

/// A value that has its place by a text.
pub trait Placed: View {
    /// The text that decides.
    spec fn place(v: Self::V) -> Seq<char>;

    fn place_text(&self) -> (r: &str)
        ensures
            r@ == Self::place(self@),
    ;
}

impl Placed for String {
    open spec fn place(v: Seq<char>) -> Seq<char> {
        v
    }

    fn place_text(&self) -> (r: &str) {
        self.as_str()
    }
}

/// The models of values.
pub open spec fn models<T: View>(s: Seq<T>) -> Seq<T::V> {
    Seq::new(s.len(), |i: int| s[i]@)
}

/// The texts by which values have their places.
pub open spec fn places<T: Placed>(s: Seq<T::V>) -> Seq<Seq<char>> {
    Seq::new(s.len(), |i: int| T::place(s[i]))
}

/// Puts a value into its place among values that are in order.
fn put<T: Placed>(sorted: &mut Vec<T>, s: T)
    requires
        ascending(places::<T>(models(old(sorted)@))),
    ensures
        ascending(places::<T>(models(final(sorted)@))),
        models(final(sorted)@).to_multiset() == models(old(sorted)@).to_multiset().insert(s@),
{
    let ghost before = places::<T>(models(sorted@));
    let ghost old_models = models(sorted@);
    let ghost v = T::place(s@);
    let ghost m = s@;
    let mut i: usize = 0;
    while i < sorted.len() && is_at_most(sorted[i].place_text(), s.place_text())
        invariant
            before == places::<T>(models(sorted@)),
            v == T::place(s@),
            i <= sorted@.len(),
            forall|j: int| 0 <= j < i ==> at_most(#[trigger] before[j], v),
        decreases sorted@.len() - i,
    {
        proof {
            assert(before[i as int] == T::place(sorted@[i as int]@));
        }
        i += 1;
    }
    proof {
        if i < before.len() {
            assert(before[i as int] == T::place(sorted@[i as int]@));
            law_order_is_total(before[i as int], v);
        }
    }
    sorted.insert(i, s);
    proof {
        let after = places::<T>(models(sorted@));
        assert(models(sorted@) =~= old_models.insert(i as int, m));
        assert(after =~= before.insert(i as int, v));
        vstd::seq_lib::to_multiset_insert(old_models, i as int, m);
        assert forall|a: int, b: int| 0 <= a <= b < after.len() implies #[trigger] at_most(
            after[a],
            after[b],
        ) by {
            let k = i as int;
            if a < k && b < k {
                assert(at_most(before[a], before[b]));
            } else if a < k && b == k {
                assert(at_most(before[a], v));
            } else if a < k && b > k {
                assert(at_most(before[a], before[b - 1]));
            } else if a == k && b == k {
                lemma_reflexive(v);
            } else if a == k && b > k {
                assert(at_most(before[k], before[b - 1]));
                lemma_transitive(v, before[k], before[b - 1]);
            } else {
                assert(at_most(before[a - 1], before[b - 1]));
            }
        }
    }
}

/// The values in their order.
pub fn sort<T: Placed>(values: Vec<T>) -> (r: Vec<T>)
    ensures
        ascending(places::<T>(models(r@))),
        models(r@).to_multiset() == models(values@).to_multiset(),
{
    let ghost all = models(values@);
    let mut left = values;
    let mut r: Vec<T> = Vec::new();
    proof {
        assert(models(r@) =~= Seq::empty());
        Seq::<T::V>::empty().to_multiset_ensures();
        assert(all.to_multiset() =~= all.to_multiset().add(models(r@).to_multiset()));
    }
    while left.len() > 0
        invariant
            ascending(places::<T>(models(r@))),
            all.to_multiset() == models(left@).to_multiset().add(models(r@).to_multiset()),
        decreases left@.len(),
    {
        let ghost before = models(left@);
        match left.pop() {
            Some(s) => {
                let ghost v = s@;
                put(&mut r, s);
                proof {
                    assert(models(left@) =~= before.drop_last());
                    assert(before =~= before.drop_last().push(v));
                    vstd::seq_lib::to_multiset_build(before.drop_last(), v);
                    assert(all.to_multiset() =~= models(left@).to_multiset().add(
                        models(r@).to_multiset(),
                    ));
                }
            },
            None => {},
        }
    }
    proof {
        assert(models(left@) =~= Seq::empty());
        Seq::<T::V>::empty().to_multiset_ensures();
        assert(models(r@).to_multiset() =~= all.to_multiset());
    }
    r
}

/// The texts in their order.
pub fn sort_texts(texts: Vec<String>) -> (r: Vec<String>)
    ensures
        ascending(text::views(r@)),
        text::views(r@).to_multiset() == text::views(texts@).to_multiset(),
{
    proof {
        assert(models(texts@) =~= text::views(texts@));
    }
    let r = sort(texts);
    proof {
        assert(models(r@) =~= text::views(r@));
        assert(places::<String>(models(r@)) =~= text::views(r@));
    }
    r
}

/// There is one order: texts that are in order and the same but for their order are the
/// same.
pub proof fn law_order_is_unique(a: Seq<Seq<char>>, b: Seq<Seq<char>>)
    requires
        ascending(a),
        ascending(b),
        a.to_multiset() == b.to_multiset(),
    ensures
        a == b,
    decreases a.len(),
{
    a.to_multiset_ensures();
    b.to_multiset_ensures();
    if a.len() > 0 {
        let x = a.last();
        let y = b.last();
        assert(a.contains(x) && b.contains(y));
        assert(a.to_multiset().count(x) > 0 && b.to_multiset().count(y) > 0);
        assert(b.contains(x) && a.contains(y));
        let i = b.index_of(x);
        let j = a.index_of(y);
        assert(at_most(b[i], b[b.len() - 1]));
        assert(at_most(a[j], a[a.len() - 1]));
        law_order_is_total(x, y);
        let p = a.drop_last();
        let q = b.drop_last();
        assert(a =~= p.push(x));
        assert(b =~= q.push(y));
        p.to_multiset_ensures();
        q.to_multiset_ensures();
        vstd::seq_lib::to_multiset_build(p, x);
        vstd::seq_lib::to_multiset_build(q, y);
        assert(p.to_multiset() =~= a.to_multiset().remove(x));
        assert(q.to_multiset() =~= b.to_multiset().remove(y));
        assert forall|s: int, t: int| 0 <= s <= t < p.len() implies #[trigger] at_most(
            p[s],
            p[t],
        ) by {
            assert(at_most(a[s], a[t]));
        }
        assert forall|s: int, t: int| 0 <= s <= t < q.len() implies #[trigger] at_most(
            q[s],
            q[t],
        ) by {
            assert(at_most(b[s], b[t]));
        }
        law_order_is_unique(p, q);
    } else {
        assert(a =~= b);
    }
}

/// A text comes before every longer text that starts with it, and where two texts part, the
/// one whose character has the lower number comes first.
pub proof fn law_order_by_characters(
    start: Seq<char>,
    a: char,
    b: char,
    x: Seq<char>,
    y: Seq<char>,
)
    requires
        (a as int) < (b as int),
    ensures
        at_most(start, start + x),
        at_most(start + seq![a] + x, start + seq![b] + y),
        !at_most(start + seq![b] + y, start + seq![a] + x),
    decreases start.len(),
{
    let p = start + seq![a] + x;
    let q = start + seq![b] + y;
    if start.len() == 0 {
        assert(p[0] == a && q[0] == b);
    } else {
        let s = start.subrange(1, start.len() as int);
        law_order_by_characters(s, a, b, x, y);
        assert(p.subrange(1, p.len() as int) =~= s + seq![a] + x);
        assert(q.subrange(1, q.len() as int) =~= s + seq![b] + y);
        assert((start + x).subrange(1, (start + x).len() as int) =~= s + x);
        assert(p[0] == start[0] && q[0] == start[0] && (start + x)[0] == start[0]);
    }
}

} // verus!
