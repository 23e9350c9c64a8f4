//! A list that holds at least one item.

use vstd::prelude::*;
use crate::views::{views, group_views};

verus! {

broadcast use group_views;

/// A non-empty ordered list: its first item and the items after it.
#[derive(Clone, Debug, PartialEq)]
pub struct OneOrMany<T> {
    pub first: T,
    pub rest: Vec<T>,
}

/// The error of building a `OneOrMany` from an empty list.
#[derive(Clone, Copy, Debug, PartialEq, Eq, Structural)]
pub struct EmptyListError;

impl<T: DeepView> DeepView for OneOrMany<T> {
    type V = Seq<T::V>;

    open spec fn deep_view(&self) -> Seq<T::V> {
        views(self.items())
    }
}

impl<T> OneOrMany<T> {
    /// The items in order; never empty.
    pub open spec fn items(&self) -> Seq<T> {
        seq![self.first] + self.rest@
    }

    /// A list of exactly one item.
    pub fn one(item: T) -> (r: Self)
        ensures
            r.items() == seq![item],
    {
        let r = OneOrMany { first: item, rest: Vec::new() };
        assert(r.items() =~= seq![item]);
        r
    }

    /// The list with the items of `items`, in their order; an empty `items`
    /// is refused.
    pub fn many(items: Vec<T>) -> (r: Result<Self, EmptyListError>)
        ensures
            items@.len() == 0 <==> r is Err,
            r matches Ok(list) ==> list.items() == items@,
    {
        let mut items = items;
        if items.len() == 0 {
            return Err(EmptyListError);
        }
        let ghost all = items@;
        let first = items.remove(0);
        let r = OneOrMany { first, rest: items };
        assert(r.items() =~= all);
        Ok(r)
    }

    /// The first item.
    pub fn first(&self) -> (r: &T)
        ensures
            *r == self.items()[0],
    {
        &self.first
    }

    /// The items as a plain vector, in order.
    pub fn into_vec(self) -> (r: Vec<T>)
        ensures
            r@ == self.items(),
    {
        let mut rest = self.rest;
        rest.insert(0, self.first);
        assert(rest@ =~= self.items());
        rest
    }

    /// Adds `item` at the end.
    pub fn push(&mut self, item: T)
        ensures
            final(self).items() == old(self).items().push(item),
    {
        self.rest.push(item);
        assert(self.items() =~= old(self).items().push(item));
    }
}

} // verus!
