//! A double-ended list of copyable values with pushes and pops at both
//! ends. The contracts describe it as a sequence whose front is the first
//! element pushed to the front and whose back is the last element pushed to
//! the back.

use vstd::prelude::*;

verus! {

/// A double-ended list; the view is front-to-back.
#[derive(Debug)]
pub struct LinkedList<T> {
    items: Vec<T>,
}

impl<T> LinkedList<T> where T: Clone + Copy {
    /// The elements, front first.
    pub closed spec fn spec_items(self) -> Seq<T> {
        self.items@
    }

    /// An empty list.
    pub fn new() -> (r: Self)
        ensures
            r.spec_items() == Seq::<T>::empty(),
    {
        LinkedList { items: Vec::new() }
    }

    /// Appends at the back.
    pub fn push_back(&mut self, val: T)
        ensures
            final(self).spec_items() == old(self).spec_items().push(val),
    {
        self.items.push(val);
    }

    /// Prepends at the front.
    pub fn push_front(&mut self, val: T)
        ensures
            final(self).spec_items() == seq![val] + old(self).spec_items(),
    {
        self.items.insert(0, val);
        proof {
            assert(self.items@ =~= seq![val] + old(self).spec_items());
        }
    }

    /// Removes and returns the back element, if any.
    pub fn pop_back(&mut self) -> (r: Option<T>)
        ensures
            match r {
                Some(v) => {
                    &&& old(self).spec_items().len() > 0
                    &&& v == old(self).spec_items().last()
                    &&& final(self).spec_items() == old(self).spec_items().drop_last()
                },
                None => {
                    &&& old(self).spec_items().len() == 0
                    &&& final(self).spec_items() == old(self).spec_items()
                },
            },
    {
        self.items.pop()
    }

    /// Removes and returns the front element, if any.
    pub fn pop_front(&mut self) -> (r: Option<T>)
        ensures
            match r {
                Some(v) => {
                    &&& old(self).spec_items().len() > 0
                    &&& v == old(self).spec_items()[0]
                    &&& final(self).spec_items() == old(self).spec_items().drop_first()
                },
                None => {
                    &&& old(self).spec_items().len() == 0
                    &&& *final(self) == *old(self)
                },
            },
    {
        if self.items.len() == 0 {
            None
        } else {
            let v = self.items.remove(0);
            proof {
                assert(self.items@ =~= old(self).spec_items().drop_first());
            }
            Some(v)
        }
    }

    /// The back element, if any, without removing it.
    pub fn back(&self) -> (r: Option<T>)
        ensures
            match r {
                Some(v) => self.spec_items().len() > 0 && v == self.spec_items().last(),
                None => self.spec_items().len() == 0,
            },
    {
        let n = self.items.len();
        if n == 0 {
            None
        } else {
            Some(self.items[n - 1])
        }
    }

    /// The front element, if any, without removing it.
    pub fn front(&self) -> (r: Option<T>)
        ensures
            match r {
                Some(v) => self.spec_items().len() > 0 && v == self.spec_items()[0],
                None => self.spec_items().len() == 0,
            },
    {
        if self.items.len() == 0 {
            None
        } else {
            Some(self.items[0])
        }
    }

    /// Turns the list into a front-to-back iterator.
    pub fn into_iter(self) -> (r: IntoIter<T>)
        ensures
            r.spec_remaining() == self.spec_items(),
    {
        IntoIter(self)
    }
}

impl<T> Default for LinkedList<T> where T: Clone + Copy {
    fn default() -> (r: Self)
        ensures
            r.spec_items() == Seq::<T>::empty(),
    {
        Self::new()
    }
}

/// Yields a list's elements front first.
pub struct IntoIter<T>(LinkedList<T>);

impl<T> IntoIter<T> where T: Clone + Copy {
    /// What is still to be yielded, in order.
    pub closed spec fn spec_remaining(self) -> Seq<T> {
        self.0.spec_items()
    }

    /// The next element from the front, or `None` when exhausted.
    pub fn next(&mut self) -> (r: Option<T>)
        ensures
            match r {
                Some(v) => {
                    &&& old(self).spec_remaining().len() > 0
                    &&& v == old(self).spec_remaining()[0]
                    &&& final(self).spec_remaining() == old(self).spec_remaining().drop_first()
                },
                None => {
                    &&& old(self).spec_remaining().len() == 0
                    &&& final(self).spec_remaining() == old(self).spec_remaining()
                },
            },
    {
        self.0.pop_front()
    }
}

} // verus!
