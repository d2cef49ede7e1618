use std::sync::Arc;
use vstd::prelude::*;

verus! {

/// A reverse singly-linked list.
///
/// Each node is reference counted, so cloning the list is cheap and
/// appending an item onto its end never touches the existing nodes:
/// `append` builds a new list whose newest node points at the old one.
#[derive(Debug, PartialEq, Eq, PartialOrd, Ord, Hash)]
pub struct List<T> {
    node: Option<Arc<Node<T>>>,
    length: usize,
}

#[derive(Debug, Clone, PartialEq, Eq, PartialOrd, Ord, Hash)]
struct Node<T> {
    prev: Option<Arc<Node<T>>>,
    value: T,
}

/// The items reachable from `node`, oldest first.
spec fn node_items<T>(node: Option<Arc<Node<T>>>) -> Seq<T>
    decreases node,
{
    match node {
        None => Seq::empty(),
        Some(n) => node_items(n.prev).push(n.value),
    }
}

/// The items reachable from a borrowed node, oldest first.
spec fn ref_items<T>(node: Option<&Node<T>>) -> Seq<T> {
    match node {
        None => Seq::empty(),
        Some(n) => node_items(n.prev).push(n.value),
    }
}

impl<T> View for List<T> {
    /// The items of the list in the order they were appended.
    type V = Seq<T>;

    closed spec fn view(&self) -> Seq<T> {
        node_items(self.node)
    }
}

impl<T> List<T> {
    #[verifier::type_invariant]
    closed spec fn wf(&self) -> bool {
        self.length == node_items(self.node).len()
    }

    /// Creates an empty list.
    pub fn new() -> (r: Self)
        ensures
            r@ == Seq::<T>::empty(),
    {
        List { node: None, length: 0 }
    }

    /// Number of items, in constant time.
    pub fn len(&self) -> (r: usize)
        ensures
            r == self@.len(),
    {
        proof {
            use_type_invariant(self);
        }
        self.length
    }

    /// Whether the list holds no item.
    pub fn is_empty(&self) -> (r: bool)
        ensures
            r == (self@.len() == 0),
    {
        proof {
            use_type_invariant(self);
        }
        self.length == 0
    }

    /// A new list made of this one with `value` appended; `self` is unchanged.
    pub fn append(&self, value: T) -> (r: Self)
        requires
            self@.len() < usize::MAX,
        ensures
            r@ == self@.push(value),
    {
        proof {
            use_type_invariant(self);
        }
        let prev = match &self.node {
            None => None,
            Some(n) => Some(Arc::clone(n)),
        };
        List { node: Some(Arc::new(Node { prev, value })), length: self.length + 1 }
    }

    /// Iterates over the items, newest first.
    pub fn iter(&self) -> (r: Iter<'_, T>)
        ensures
            r@ == self@,
    {
        Iter::new(self)
    }
}

impl<T> Clone for List<T> {
    /// A second handle on the same nodes, in constant time.
    fn clone(&self) -> (r: Self)
        ensures
            r@ == self@,
    {
        proof {
            use_type_invariant(self);
        }
        let node = match &self.node {
            None => None,
            Some(n) => Some(Arc::clone(n)),
        };
        List { node, length: self.length }
    }
}

/// Iterator over the items of a [`List`], from the newest to the oldest.
pub struct Iter<'a, T> {
    node: Option<&'a Node<T>>,
}

impl<'a, T> View for Iter<'a, T> {
    /// The items not yet yielded, oldest first: `next` yields the last one.
    type V = Seq<T>;

    closed spec fn view(&self) -> Seq<T> {
        ref_items(self.node)
    }
}

impl<'a, T> Iter<'a, T> {
    fn new(list: &'a List<T>) -> (r: Self)
        ensures
            r@ == list@,
    {
        let node = match &list.node {
            None => None,
            Some(n) => Some(&**n),
        };
        Iter { node }
    }

    /// Yields the newest item not yet yielded, or `None` when all were.
    pub fn next(&mut self) -> (r: Option<&'a T>)
        ensures
            old(self)@.len() == 0 ==> r is None && final(self)@ == old(self)@,
            old(self)@.len() > 0 ==> r == Some(&old(self)@.last()) && final(self)@
                == old(self)@.drop_last(),
    {
        match self.node {
            None => None,
            Some(n) => {
                self.node = match &n.prev {
                    None => None,
                    Some(p) => Some(&**p),
                };
                assert(node_items(n.prev) =~= ref_items(self.node));
                Some(&n.value)
            },
        }
    }
}

} // verus!
