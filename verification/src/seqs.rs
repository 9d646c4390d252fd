//! Small helpers for growing vectors and for reasoning about their prefixes.

use vstd::prelude::*;

verus! {

/// Taking one more element of a sequence appends that element to the shorter prefix.
pub proof fn take_step<A>(s: Seq<A>, i: int)
    requires
        0 <= i < s.len(),
    ensures
        s.take(i + 1).len() == i + 1,
        s.take(i + 1).drop_last() == s.take(i),
        s.take(i + 1).last() == s[i],
        s.take(i + 1) == s.take(i).push(s[i]),
{
    assert(s.take(i + 1).drop_last() =~= s.take(i));
    assert(s.take(i + 1) =~= s.take(i).push(s[i]));
}

/// The prefix of full length is the sequence, and the empty prefix is empty.
pub proof fn take_ends<A>(s: Seq<A>)
    ensures
        s.take(0) == Seq::<A>::empty(),
        s.take(s.len() as int) == s,
{
    assert(s.take(0) =~= Seq::<A>::empty());
    assert(s.take(s.len() as int) =~= s);
}

/// Appends `item`; the model of the vector grows by the model of `item`.
pub fn put<T: DeepView>(items: &mut Vec<T>, item: T)
    ensures
        final(items)@ == old(items)@.push(item),
        final(items).deep_view() == old(items).deep_view().push(item.deep_view()),
{
    items.push(item);
    assert(items.deep_view() =~= old(items).deep_view().push(item.deep_view()));
}

/// Appends all of `more`, in order.
pub fn extend<T: DeepView>(items: &mut Vec<T>, more: Vec<T>)
    ensures
        final(items)@ == old(items)@ + more@,
        final(items).deep_view() == old(items).deep_view() + more.deep_view(),
{
    let ghost added = more.deep_view();
    let mut rest = more;
    items.append(&mut rest);
    assert(items.deep_view() =~= old(items).deep_view() + added);
}

/// A vector of one item.
pub fn one<T: DeepView>(item: T) -> (items: Vec<T>)
    ensures
        items.deep_view() == seq![item.deep_view()],
{
    let mut items: Vec<T> = Vec::new();
    items.push(item);
    assert(items.deep_view() =~= seq![item.deep_view()]);
    items
}

/// Each item put through `f`, in order; `g` is the model of `f`.
pub(crate) fn map_all<A: DeepView, B: DeepView, F: Fn(&A) -> B>(
    items: &Vec<A>,
    f: F,
    Ghost(g): Ghost<spec_fn(A::V) -> B::V>,
) -> (r: Vec<B>)
    requires
        forall|a: &A| #[trigger] call_requires(f, (a,)),
        forall|a: &A, b: B| #[trigger] call_ensures(f, (a,), b) ==> b.deep_view() == g(a.deep_view()),
    ensures
        r.deep_view() == items.deep_view().map_values(g),
{
    let mut r: Vec<B> = Vec::new();
    let mut i: usize = 0;
    while i < items.len()
        invariant
            i <= items@.len(),
            r@.len() == i,
            forall|a: &A| #[trigger] call_requires(f, (a,)),
            forall|a: &A, b: B| #[trigger]
                call_ensures(f, (a,), b) ==> b.deep_view() == g(a.deep_view()),
            forall|k: int| 0 <= k < i ==> (#[trigger] r@[k]).deep_view() == g(items@[k].deep_view()),
        decreases items.len() - i,
    {
        let b = f(&items[i]);
        r.push(b);
        i += 1;
    }
    assert(r.deep_view() =~= items.deep_view().map_values(g));
    r
}

/// What `f` gives for each item for which it gives something, in order; `g` is
/// the model of `f`.
pub(crate) fn pick_all<A: DeepView, B: DeepView, F: Fn(&A) -> Option<B>>(
    items: &Vec<A>,
    f: F,
    Ghost(g): Ghost<spec_fn(A::V) -> Option<B::V>>,
) -> (r: Vec<B>)
    requires
        forall|a: &A| #[trigger] call_requires(f, (a,)),
        forall|a: &A, b: Option<B>| #[trigger]
            call_ensures(f, (a,), b) ==> b.deep_view() == g(a.deep_view()),
    ensures
        r.deep_view() == items.deep_view().filter_map(g),
{
    let mut r: Vec<B> = none();
    let mut i: usize = 0;
    let ghost all = items.deep_view();
    proof {
        take_ends(all);
    }
    while i < items.len()
        invariant
            i <= items@.len(),
            all == items.deep_view(),
            all.len() == items@.len(),
            forall|a: &A| #[trigger] call_requires(f, (a,)),
            forall|a: &A, b: Option<B>| #[trigger]
                call_ensures(f, (a,), b) ==> b.deep_view() == g(a.deep_view()),
            r.deep_view() == all.take(i as int).filter_map(g),
        decreases items.len() - i,
    {
        let ghost before = r.deep_view();
        proof {
            all.lemma_filter_map_take_succ(g, i as int);
        }
        if let Some(b) = f(&items[i]) {
            put(&mut r, b);
        }
        assert(r.deep_view() =~= all.take(i + 1).filter_map(g));
        i += 1;
    }
    r
}

/// An empty vector, whose model is the empty sequence.
pub fn none<T: DeepView>() -> (items: Vec<T>)
    ensures
        items@.len() == 0,
        items.deep_view() == Seq::<T::V>::empty(),
{
    let items: Vec<T> = Vec::new();
    assert(items.deep_view() =~= Seq::<T::V>::empty());
    items
}

/// What is picked from two sequences in a row is picked from each of them.
pub proof fn picks_concat<A, B>(a: Seq<A>, b: Seq<A>, f: spec_fn(A) -> Option<B>)
    ensures
        (a + b).filter_map(f) == a.filter_map(f) + b.filter_map(f),
    decreases b.len(),
{
    if b.len() == 0 {
        assert(a + b =~= a);
        assert(a.filter_map(f) + b.filter_map(f) =~= a.filter_map(f));
    } else {
        picks_concat(a, b.drop_last(), f);
        assert((a + b).drop_last() =~= a + b.drop_last());
        assert((a + b).filter_map(f) =~= a.filter_map(f) + b.filter_map(f));
    }
}

/// Nothing is picked where nothing is wanted.
pub proof fn picks_none<A, B>(s: Seq<A>, f: spec_fn(A) -> Option<B>)
    requires
        forall|i: int| 0 <= i < s.len() ==> f(#[trigger] s[i]) is None,
    ensures
        s.filter_map(f) == Seq::<B>::empty(),
    decreases s.len(),
{
    if s.len() > 0 {
        let rest = s.drop_last();
        assert forall|i: int| 0 <= i < rest.len() implies f(#[trigger] rest[i]) is None by {
            assert(rest[i] == s[i]);
        }
        picks_none(rest, f);
        assert(f(s[s.len() - 1]) is None);
    }
}

/// Everything is picked where everything is wanted.
pub proof fn picks_all<A, B>(s: Seq<A>, f: spec_fn(A) -> Option<B>, t: Seq<B>)
    requires
        s.len() == t.len(),
        forall|i: int| 0 <= i < s.len() ==> f(#[trigger] s[i]) == Some(t[i]),
    ensures
        s.filter_map(f) == t,
    decreases s.len(),
{
    if s.len() > 0 {
        let rest = s.drop_last();
        assert forall|i: int| 0 <= i < rest.len() implies f(#[trigger] rest[i]) == Some(
            t.drop_last()[i],
        ) by {
            assert(rest[i] == s[i]);
        }
        picks_all(rest, f, t.drop_last());
        assert(f(s[s.len() - 1]) == Some(t[t.len() - 1]));
        assert(s.filter_map(f) =~= t);
    } else {
        assert(t =~= Seq::<B>::empty());
    }
}

/// What is wanted of an element is picked somewhere.
pub proof fn pick_is_there<A, B>(s: Seq<A>, f: spec_fn(A) -> Option<B>, i: int) -> (k: int)
    requires
        0 <= i < s.len(),
        f(s[i]) is Some,
    ensures
        0 <= k < s.filter_map(f).len(),
        s.filter_map(f)[k] == f(s[i])->0,
    decreases s.len(),
{
    let rest = s.drop_last();
    if i == s.len() - 1 {
        rest.filter_map(f).len() as int
    } else {
        pick_is_there(rest, f, i)
    }
}

} // verus!
