//! The views of lists: the list of the items' views.

use vstd::prelude::*;

verus! {

/// The views of the items of `items`, in order.
pub open spec fn views<T: DeepView>(items: Seq<T>) -> Seq<T::V> {
    items.map_values(|item: T| item.deep_view())
}

/// The views of no items are no views.
pub broadcast proof fn lemma_views_empty<T: DeepView>()
    ensures
        #[trigger] views(Seq::<T>::empty()) == Seq::<T::V>::empty(),
{
    assert(views(Seq::<T>::empty()) =~= Seq::<T::V>::empty());
}

/// The views of a list with one more item.
pub broadcast proof fn lemma_views_push<T: DeepView>(items: Seq<T>, item: T)
    ensures
        #[trigger] views(items.push(item)) == views(items).push(item.deep_view()),
{
    assert(views(items.push(item)) =~= views(items).push(item.deep_view()));
}

/// The views of two lists, one after the other.
pub broadcast proof fn lemma_views_add<T: DeepView>(left: Seq<T>, right: Seq<T>)
    ensures
        #[trigger] views(left + right) == views(left) + views(right),
{
    assert(views(left + right) =~= views(left) + views(right));
}

/// The views of the first items of a list.
pub broadcast proof fn lemma_views_take<T: DeepView>(items: Seq<T>, n: int)
    requires
        0 <= n <= items.len(),
    ensures
        #[trigger] views(items.take(n)) == views(items).take(n),
{
    assert(views(items.take(n)) =~= views(items).take(n));
}

/// The deep view of a vector is the views of its items.
pub broadcast proof fn lemma_views_of_vec<T: DeepView>(items: Vec<T>)
    ensures
        #[trigger] items.deep_view() == views(items@),
{
    assert(items.deep_view() =~= views(items@));
}

/// The items that `f` gives for the items of `items`, in order; an item for
/// which `f` gives none is left out.
pub open spec fn filter_map<A, B>(items: Seq<A>, f: spec_fn(A) -> Option<B>) -> Seq<B>
    decreases items.len(),
{
    if items.len() == 0 {
        Seq::empty()
    } else {
        let init = filter_map(items.drop_last(), f);
        match f(items.last()) {
            Some(b) => init.push(b),
            None => init,
        }
    }
}

/// What one more item adds to `filter_map`.
pub proof fn lemma_filter_map_step<A, B>(items: Seq<A>, f: spec_fn(A) -> Option<B>, i: int)
    requires
        0 <= i < items.len(),
    ensures
        filter_map(items.take(i + 1), f) == match f(items[i]) {
            Some(b) => filter_map(items.take(i), f).push(b),
            None => filter_map(items.take(i), f),
        },
{
    assert(items.take(i + 1).drop_last() =~= items.take(i));
}

/// The lists that `f` gives for the items of `items`, one after another.
pub open spec fn flat_map<A, B>(items: Seq<A>, f: spec_fn(A) -> Seq<B>) -> Seq<B>
    decreases items.len(),
{
    if items.len() == 0 {
        Seq::empty()
    } else {
        flat_map(items.drop_last(), f) + f(items.last())
    }
}

/// What one more item adds to `flat_map`.
pub proof fn lemma_flat_map_step<A, B>(items: Seq<A>, f: spec_fn(A) -> Seq<B>, i: int)
    requires
        0 <= i < items.len(),
    ensures
        flat_map(items.take(i + 1), f) == flat_map(items.take(i), f) + f(items[i]),
{
    assert(items.take(i + 1).drop_last() =~= items.take(i));
}

/// `flat_map` of two lists, one after the other.
pub proof fn lemma_flat_map_add<A, B>(left: Seq<A>, right: Seq<A>, f: spec_fn(A) -> Seq<B>)
    ensures
        flat_map(left + right, f) == flat_map(left, f) + flat_map(right, f),
    decreases right.len(),
{
    if right.len() == 0 {
        assert(left + right =~= left);
        assert(flat_map(left, f) + flat_map(right, f) =~= flat_map(left, f));
    } else {
        assert((left + right).drop_last() =~= left + right.drop_last());
        lemma_flat_map_add(left, right.drop_last(), f);
        assert((left + right).last() == right.last());
        assert(flat_map(left + right, f) =~= flat_map(left, f) + flat_map(right, f));
    }
}

pub broadcast group group_views {
    lemma_views_empty,
    lemma_views_push,
    lemma_views_add,
    lemma_views_take,
    lemma_views_of_vec,
}

} // verus!
