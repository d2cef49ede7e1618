//! Inner type validation: runs rules on every item of a container.
//!
//! The entrypoint is the [`Inner`] trait: `validate_inner` calls the given
//! function once per item, with the item and its key.
use vstd::prelude::*;

use crate::error::{NoKey, PathComponentKind};

verus! {

/// `f` may be called on any item and key.
pub open spec fn callable_on<T, K, F: FnMut(&T, &K)>(f: F) -> bool {
    forall|t: &T, k: &K| f.requires((t, k))
}

/// Calls `f` on every item of `field`, with the item's key.
pub fn apply<T, U, K, F: FnMut(&U, &K)>(field: &T, f: F) where T: Inner<U, Key = K>
    requires
        callable_on::<U, K, F>(f),
    ensures
        called_on_each::<U, K, F>(f, field.keyed_items()),
{
    field.validate_inner(f)
}

/// `f` was called on every `(item, key)` pair of `items`.
pub open spec fn called_on_each<T, K, F: FnMut(&T, &K)>(f: F, items: Seq<(T, K)>) -> bool {
    forall|i: int| 0 <= i < items.len() ==> call_ensures(f, (&items[i].0, &items[i].1), ())
}

pub trait Inner<T> {
    /// The key of an item: its index, or no key.
    type Key: PathComponentKind;

    /// The items, each with its key, in the order in which `validate_inner`
    /// visits them. The default, no item, is what a container that visits
    /// nothing states.
    open spec fn keyed_items(&self) -> Seq<(T, Self::Key)> {
        Seq::empty()
    }

    /// Calls `f` on every item, with the item's key.
    fn validate_inner<F: FnMut(&T, &Self::Key)>(&self, f: F)
        requires
            callable_on::<T, Self::Key, F>(f),
        ensures
            called_on_each::<T, Self::Key, F>(f, self.keyed_items()),
    ;
}

/// The items of `items`, each with its index as key.
pub open spec fn indexed<T>(items: Seq<T>) -> Seq<(T, usize)> {
    Seq::new(items.len(), |i: int| (items[i], i as usize))
}

/// `f` was called on every item of `items`, each with its index.
pub open spec fn called_on_each_index<T, F: FnMut(&T, &usize)>(f: F, items: Seq<T>) -> bool {
    forall|k: int| 0 <= k < items.len() ==> call_ensures(f, (&items[k], &(k as usize)), ())
}

/// Calls `f` on every item of `items` in order, with the item's index.
fn each_indexed<T, F: FnMut(&T, &usize)>(items: &[T], mut f: F)
    requires
        callable_on::<T, usize, F>(f),
    ensures
        called_on_each_index(f, items@),
{
    let ghost f0 = f;
    let mut index: usize = 0;
    while index < items.len()
        invariant
            f == f0,
            index <= items@.len(),
            callable_on::<T, usize, F>(f),
            forall|k: int| 0 <= k < index ==> call_ensures(f0, (&items@[k], &(k as usize)), ()),
        decreases items@.len() - index,
    {
        f(&items[index], &index);
        index = index + 1;
    }
}

impl<T> Inner<T> for Vec<T> {
    type Key = usize;

    open spec fn keyed_items(&self) -> Seq<(T, usize)> {
        indexed(self@)
    }

    fn validate_inner<F: FnMut(&T, &usize)>(&self, f: F) {
        each_indexed(self.as_slice(), f);
        assert(called_on_each::<T, usize, F>(f, indexed(self@)));
    }
}

impl<const N: usize, T> Inner<T> for [T; N] {
    type Key = usize;

    open spec fn keyed_items(&self) -> Seq<(T, usize)> {
        indexed(self@)
    }

    fn validate_inner<F: FnMut(&T, &usize)>(&self, f: F) {
        each_indexed(self.as_slice(), f);
        assert(called_on_each::<T, usize, F>(f, indexed(self@)));
    }
}

impl<'a, T> Inner<T> for &'a [T] {
    type Key = usize;

    open spec fn keyed_items(&self) -> Seq<(T, usize)> {
        indexed(self@)
    }

    fn validate_inner<F: FnMut(&T, &usize)>(&self, f: F) {
        each_indexed(*self, f);
        assert(called_on_each::<T, usize, F>(f, indexed(self@)));
    }
}

/// Calls `f` on the item of `item` if there is one, with no key.
fn each_present<T, F: FnMut(&T, &NoKey)>(item: &Option<T>, mut f: F)
    requires
        callable_on::<T, NoKey, F>(f),
    ensures
        item matches Some(x) ==> call_ensures(f, (&x, &NoKey::only()), ()),
{
    if let Some(value) = item {
        f(value, &NoKey::default())
    }
}

impl<T> Inner<T> for Option<T> {
    type Key = NoKey;

    open spec fn keyed_items(&self) -> Seq<(T, NoKey)> {
        match self {
            Some(x) => seq![(*x, NoKey::only())],
            None => Seq::empty(),
        }
    }

    fn validate_inner<F: FnMut(&T, &NoKey)>(&self, f: F) {
        each_present(self, f)
    }
}

} // verus!

verus! {

/// Validating the items of a vector visits each item once, paired with its
/// index, from the first to the last.
pub proof fn vec_items_are_visited_with_their_index<T>(v: Vec<T>)
    ensures
        v.keyed_items().len() == v@.len(),
        forall|k: int| 0 <= k < v@.len() ==> #[trigger] v.keyed_items()[k] == (v@[k], k as usize),
{
}

/// Validating the items of an array visits each of its `N` items once,
/// paired with its index, from the first to the last.
pub proof fn array_items_are_visited_with_their_index<T, const N: usize>(a: [T; N])
    ensures
        a.keyed_items().len() == N,
        forall|k: int| 0 <= k < N ==> #[trigger] a.keyed_items()[k] == (a@[k], k as usize),
{
}

/// Validating the items of a slice visits each item once, paired with its
/// index, from the first to the last.
pub proof fn slice_items_are_visited_with_their_index<'a, T>(s: &'a [T])
    ensures
        s.keyed_items().len() == s@.len(),
        forall|k: int| 0 <= k < s@.len() ==> #[trigger] s.keyed_items()[k] == (s@[k], k as usize),
{
}

/// Validating the item of an `Option` visits the value, without a key, when
/// there is one, and nothing otherwise.
pub proof fn option_item_is_visited_when_present<T>(o: Option<T>)
    ensures
        o matches Some(x) ==> o.keyed_items() == seq![(x, NoKey::only())],
        o is None ==> o.keyed_items().len() == 0,
{
}

} // verus!
