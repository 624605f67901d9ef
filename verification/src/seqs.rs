//! Small facts about sequences that the loops of the library lean on.

use vstd::prelude::*;

verus! {

/// Filtering one more element either appends it or changes nothing.
pub proof fn lemma_filter_next<A>(s: Seq<A>, i: int, keep: spec_fn(A) -> bool)
    requires
        0 <= i < s.len(),
    ensures
        s.take(i + 1).filter(keep) == if keep(s[i]) {
            s.take(i).filter(keep).push(s[i])
        } else {
            s.take(i).filter(keep)
        },
{
    reveal(Seq::filter);
    assert(s.take(i + 1).drop_last() =~= s.take(i));
}

/// Filter-mapping one more element either appends its image or changes nothing.
pub proof fn lemma_filter_map_next<A, B>(s: Seq<A>, i: int, f: spec_fn(A) -> Option<B>)
    requires
        0 <= i < s.len(),
    ensures
        s.take(i + 1).filter_map(f) == match f(s[i]) {
            Some(b) => s.take(i).filter_map(f).push(b),
            None => s.take(i).filter_map(f),
        },
{
    assert(s.take(i + 1).drop_last() =~= s.take(i));
    match f(s[i]) {
        Some(b) => {
        },
        None => {},
    }
}

/// A filter-map that maps every element that occurs is a map.
pub proof fn lemma_filter_map_total<A, B>(s: Seq<A>, f: spec_fn(A) -> Option<B>, g: spec_fn(A) -> B)
    requires
        forall|i: int| 0 <= i < s.len() ==> f(#[trigger] s[i]) == Some(g(s[i])),
    ensures
        s.filter_map(f) == s.map_values(g),
    decreases s.len(),
{
    if s.len() > 0 {
        lemma_filter_map_total(s.drop_last(), f, g);
    }
}

/// A filter-map that drops one element of a duplicate-free sequence and maps
/// the others is a map of the sequence without that element.
pub proof fn lemma_filter_map_skip_one<A, B>(
    s: Seq<A>,
    x: A,
    f: spec_fn(A) -> Option<B>,
    g: spec_fn(A) -> B,
)
    requires
        s.no_duplicates(),
        s.contains(x),
        f(x) is None,
        forall|i: int| 0 <= i < s.len() && s[i] != x ==> f(#[trigger] s[i]) == Some(g(s[i])),
    ensures
        s.filter_map(f) == s.remove(s.index_of(x)).map_values(g),
    decreases s.len(),
{
    let at = s.index_of(x);
    let front = s.drop_last();
    if s.last() == x {
        lemma_filter_map_total(front, f, g);
    } else {
        assert(front.contains(x)) by {
            assert(front[at] == x);
        }
        lemma_filter_map_skip_one(front, x, f, g);
    }
}

} // verus!
