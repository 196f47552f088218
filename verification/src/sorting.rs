//! Stable ordering of tagged items: fields, oneof members and enum values are
//! listed by their number, and items that share a number keep the order in
//! which they were given.

use vstd::prelude::*;

verus! {

/// A number by which declarations are ordered.
pub trait Tag: Copy {
    /// The integer this tag stands for.
    spec fn number(&self) -> int;

    /// Whether this tag is at most `other`.
    fn at_most(&self, other: &Self) -> (r: bool)
        ensures
            r == (self.number() <= other.number()),
    ;
}

impl Tag for u32 {
    open spec fn number(&self) -> int {
        *self as int
    }

    fn at_most(&self, other: &Self) -> (r: bool) {
        *self <= *other
    }
}

impl Tag for i32 {
    open spec fn number(&self) -> int {
        *self as int
    }

    fn at_most(&self, other: &Self) -> (r: bool) {
        *self <= *other
    }
}

/// Whether the items of `s` come in non-decreasing order of their tags.
pub open spec fn sorted_by_tag<K: Tag, T>(s: Seq<(K, T)>) -> bool {
    forall|i: int, j: int| 0 <= i <= j < s.len() ==> s[i].0.number() <= s[j].0.number()
}

/// The test for an item whose tag is `n`.
pub open spec fn tag_is<K: Tag, T>(n: int) -> spec_fn((K, T)) -> bool {
    |e: (K, T)| e.0.number() == n
}

/// The items of `s` whose tag is `n`, in their order in `s`.
pub open spec fn with_tag<K: Tag, T>(s: Seq<(K, T)>, n: int) -> Seq<(K, T)> {
    s.filter(tag_is::<K, T>(n))
}

/// Whether `sorted` lists the items of `items` in order of their tags, items
/// with the same tag keeping the order they had in `items`.
pub open spec fn is_stable_sort<K: Tag, T>(sorted: Seq<(K, T)>, items: Seq<(K, T)>) -> bool {
    &&& sorted_by_tag(sorted)
    &&& sorted.len() == items.len()
    &&& forall|n: int| #[trigger] with_tag(sorted, n) == with_tag(items, n)
}

/// Inserting an item between the items whose tag is at most its own and those
/// whose tag is greater keeps the order, and adds the item at the end of the
/// items that share its tag.
proof fn lemma_insert_at_boundary<K: Tag, T>(s: Seq<(K, T)>, p: int, x: (K, T))
    requires
        sorted_by_tag(s),
        0 <= p <= s.len(),
        forall|i: int| 0 <= i < p ==> s[i].0.number() <= x.0.number(),
        forall|i: int| p <= i < s.len() ==> s[i].0.number() > x.0.number(),
    ensures
        sorted_by_tag(s.insert(p, x)),
        forall|n: int|
            #[trigger] with_tag(s.insert(p, x), n) == if n == x.0.number() {
                with_tag(s, n).push(x)
            } else {
                with_tag(s, n)
            },
{
    let a = s.take(p);
    let b = s.skip(p);
    assert(s =~= a + b);
    assert(s.insert(p, x) =~= a.push(x) + b);
    assert forall|n: int|
        #[trigger] with_tag(s.insert(p, x), n) == if n == x.0.number() {
            with_tag(s, n).push(x)
        } else {
            with_tag(s, n)
        } by {
        let pred = tag_is::<K, T>(n);
        Seq::filter_distributes_over_add(a.push(x), b, pred);
        Seq::filter_distributes_over_add(a, b, pred);
        a.lemma_filter_push(x, pred);
        if n == x.0.number() {
            assert(b.all(|y: (K, T)| !pred(y)));
            b.lemma_all_neg_filter_empty(pred);
            assert(b.filter(pred) =~= Seq::<(K, T)>::empty());
            assert(with_tag(s, n) =~= a.filter(pred));
        }
    }
}

/// The position at which an item with tag `key` goes in the sorted `out`:
/// after every item whose tag is at most `key`.
fn insertion_point<K: Tag, T>(out: &Vec<(K, T)>, key: K) -> (p: usize)
    requires
        sorted_by_tag(out@),
    ensures
        p <= out@.len(),
        forall|i: int| 0 <= i < p ==> out@[i].0.number() <= key.number(),
        forall|i: int| p <= i < out@.len() ==> out@[i].0.number() > key.number(),
{
    let mut p = out.len();
    while p > 0
        invariant
            p <= out@.len(),
            sorted_by_tag(out@),
            forall|i: int| p <= i < out@.len() ==> out@[i].0.number() > key.number(),
        decreases p,
    {
        if out[p - 1].0.at_most(&key) {
            return p;
        }
        p = p - 1;
    }
    p
}

/// Sorts `items` by their tag, keeping the given order among items with equal tags.
pub fn sort_by_tag<K: Tag, T>(items: Vec<(K, T)>) -> (r: Vec<(K, T)>)
    ensures
        is_stable_sort(r@, items@),
{
    let ghost orig = items@;
    let mut rest = items;
    let mut out: Vec<(K, T)> = Vec::new();
    let ghost mut done: int = 0;
    while rest.len() > 0
        invariant
            0 <= done <= orig.len(),
            rest@ == orig.skip(done),
            out@.len() == done,
            sorted_by_tag(out@),
            forall|n: int| #[trigger] with_tag(out@, n) == with_tag(orig.take(done), n),
        decreases rest@.len(),
    {
        let item = rest.remove(0);
        assert(item == orig[done]);
        let p = insertion_point(&out, item.0);
        proof {
            lemma_insert_at_boundary(out@, p as int, item);
            assert(orig.take(done + 1) =~= orig.take(done).push(item));
            assert forall|n: int| #[trigger]
                with_tag(orig.take(done + 1), n) == if n == item.0.number() {
                    with_tag(orig.take(done), n).push(item)
                } else {
                    with_tag(orig.take(done), n)
                } by {
                orig.take(done).lemma_filter_push(item, tag_is::<K, T>(n));
            }
        }
        out.insert(p, item);
        proof {
            done = done + 1;
            assert(rest@ =~= orig.skip(done));
        }
    }
    assert(orig.take(done) =~= orig);
    out
}

} // verus!

verus! {

/// Keeping the items that pass a test keeps every copy of an item that passes it.
proof fn lemma_filter_count<A>(t: Seq<A>, p: spec_fn(A) -> bool, x: A)
    requires
        p(x),
    ensures
        t.filter(p).to_multiset().count(x) == t.to_multiset().count(x),
    decreases t.len(),
{
    broadcast use vstd::multiset::group_multiset_axioms;

    if t.len() == 0 {
        reveal(Seq::filter);
        assert(t.filter(p) =~= t);
    } else {
        let u = t.drop_last();
        let y = t.last();
        assert(t =~= u.push(y));
        lemma_filter_count(u, p, x);
        u.lemma_filter_push(y, p);
        vstd::seq_lib::to_multiset_build(u, y);
        if p(y) {
            vstd::seq_lib::to_multiset_build(u.filter(p), y);
        }
    }
}

/// A stable sort neither loses nor adds an item: the sorted items are the given
/// items, each as many times.
pub proof fn law_stable_sort_is_permutation<K: Tag, T>(sorted: Seq<(K, T)>, items: Seq<(K, T)>)
    requires
        is_stable_sort(sorted, items),
    ensures
        sorted.to_multiset() == items.to_multiset(),
{
    assert forall|x: (K, T)| #[trigger] sorted.to_multiset().count(x) == items.to_multiset().count(x) by {
        let n = x.0.number();
        lemma_filter_count(sorted, tag_is::<K, T>(n), x);
        lemma_filter_count(items, tag_is::<K, T>(n), x);
        assert(with_tag(sorted, n) == with_tag(items, n));
    }
    assert(sorted.to_multiset() =~= items.to_multiset());
}

} // verus!
