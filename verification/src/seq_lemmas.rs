//! Facts about `Seq::filter_map` that the rules of a tick rest on.

use vstd::prelude::*;

verus! {

/// `filter_map` over a sequence with one more element at its end.
pub(crate) proof fn lemma_filter_map_push<A, B>(s: Seq<A>, f: spec_fn(A) -> Option<B>, a: A)
    ensures
        s.push(a).filter_map(f) == match f(a) {
            Some(b) => s.filter_map(f).push(b),
            None => s.filter_map(f),
        },
{
    assert(s.push(a).drop_last() =~= s);
    assert(s.push(a).last() == a);
    match f(a) {
        Some(b) => {
            assert(s.filter_map(f) + seq![b] =~= s.filter_map(f).push(b));
        },
        None => {},
    }
}

/// Two `filter_map`s in a row are one, by the function that applies `f` and
/// then, where `f` answered, `g`.
pub(crate) proof fn lemma_filter_map_twice<A, B, C>(
    s: Seq<A>,
    f: spec_fn(A) -> Option<B>,
    g: spec_fn(B) -> Option<C>,
    h: spec_fn(A) -> Option<C>,
)
    requires
        forall|a: A|
            #[trigger] h(a) == match f(a) {
                Some(b) => g(b),
                None => None,
            },
    ensures
        s.filter_map(f).filter_map(g) == s.filter_map(h),
    decreases s.len(),
{
    if s.len() > 0 {
        let rest = s.drop_last();
        lemma_filter_map_twice(rest, f, g, h);
        assert(rest.push(s.last()) =~= s);
        lemma_filter_map_push(rest, f, s.last());
        lemma_filter_map_push(rest, h, s.last());
        match f(s.last()) {
            Some(b) => {
                lemma_filter_map_push(rest.filter_map(f), g, b);
            },
            None => {},
        }
    }
}

/// An element on which `f` answers `None` may as well not be there.
pub(crate) proof fn lemma_filter_map_skips_none<A, B>(s: Seq<A>, f: spec_fn(A) -> Option<B>, i: int)
    requires
        0 <= i < s.len(),
        f(s[i]).is_none(),
    ensures
        s.filter_map(f) == s.remove(i).filter_map(f),
    decreases s.len(),
{
    let rest = s.drop_last();
    if i == s.len() - 1 {
        assert(s.remove(i) =~= rest);
    } else {
        lemma_filter_map_skips_none(rest, f, i);
        assert(s.remove(i) =~= rest.remove(i).push(s.last()));
        assert(rest.push(s.last()) =~= s);
        lemma_filter_map_push(rest.remove(i), f, s.last());
        lemma_filter_map_push(rest, f, s.last());
    }
}

/// Where `f` answers on every element, `filter_map` keeps the length.
pub(crate) proof fn lemma_filter_map_keeps_all<A, B>(s: Seq<A>, f: spec_fn(A) -> Option<B>)
    requires
        forall|j: int| 0 <= j < s.len() ==> f(#[trigger] s[j]).is_some(),
    ensures
        s.filter_map(f).len() == s.len(),
    decreases s.len(),
{
    if s.len() > 0 {
        let rest = s.drop_last();
        assert forall|j: int| 0 <= j < rest.len() implies f(#[trigger] rest[j]).is_some() by {
            assert(rest[j] == s[j]);
        }
        lemma_filter_map_keeps_all(rest, f);
        assert(rest.push(s.last()) =~= s);
        lemma_filter_map_push(rest, f, s.last());
    }
}

/// `filter_map` never lengthens a sequence.
pub(crate) proof fn lemma_filter_map_no_longer<A, B>(s: Seq<A>, f: spec_fn(A) -> Option<B>)
    ensures
        s.filter_map(f).len() <= s.len(),
    decreases s.len(),
{
    if s.len() > 0 {
        let rest = s.drop_last();
        lemma_filter_map_no_longer(rest, f);
        assert(rest.push(s.last()) =~= s);
        lemma_filter_map_push(rest, f, s.last());
    }
}

/// `filter_map` by a function that answers every element with itself
/// changes nothing.
pub(crate) proof fn lemma_filter_map_keeps_whole<A>(s: Seq<A>, f: spec_fn(A) -> Option<A>)
    requires
        forall|a: A| #[trigger] f(a) == Some(a),
    ensures
        s.filter_map(f) == s,
    decreases s.len(),
{
    if s.len() > 0 {
        let rest = s.drop_last();
        lemma_filter_map_keeps_whole(rest, f);
        assert(rest.push(s.last()) =~= s);
        lemma_filter_map_push(rest, f, s.last());
    } else {
        assert(s.filter_map(f) =~= s);
    }
}

} // verus!
