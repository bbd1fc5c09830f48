//! A doubly-ended list addressed from both sides. The view is the sequence
//! of elements from front to back.

use vstd::prelude::*;

verus! {

/// A list with pushes at both ends and a length.
#[derive(Clone)]
pub struct DoublyLinkedList<T> {
    items: Vec<T>,
}

impl<T> DoublyLinkedList<T> {
    /// The elements, front first.
    pub closed spec fn spec_items(self) -> Seq<T> {
        self.items@
    }

    /// Creates a new empty list.
    pub fn new() -> (r: Self)
        ensures
            r.spec_items() == Seq::<T>::empty(),
    {
        DoublyLinkedList { items: Vec::new() }
    }

    /// Whether the list holds no elements.
    pub fn is_empty(&self) -> (r: bool)
        ensures
            r == (self.spec_items().len() == 0),
    {
        self.items.len() == 0
    }

    /// The number of elements.
    pub fn len(&self) -> (r: usize)
        ensures
            r == self.spec_items().len(),
    {
        self.items.len()
    }

    /// Adds an element at the back.
    pub fn push_back(&mut self, data: T)
        ensures
            final(self).spec_items() == old(self).spec_items().push(data),
    {
        self.items.push(data);
    }

    /// Adds an element at the front.
    pub fn push_front(&mut self, data: T)
        ensures
            final(self).spec_items() == seq![data] + old(self).spec_items(),
    {
        self.items.insert(0, data);
        proof {
            assert(self.items@ =~= seq![data] + old(self).spec_items());
        }
    }

    /// The elements from front to back, for display or inspection.
    pub fn iter_order(&self) -> (r: &Vec<T>)
        ensures
            r@ == self.spec_items(),
    {
        &self.items
    }
}

impl<T> Default for DoublyLinkedList<T> {
    fn default() -> (r: Self)
        ensures
            r.spec_items() == Seq::<T>::empty(),
    {
        Self::new()
    }
}

} // verus!
