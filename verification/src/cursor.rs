//! A cursor over a sequence that has been read in full: it reads ahead one item at a
//! time and can undo its last read.

use vstd::prelude::*;

verus! {

/// A sequence that is read from the front, one item at a time, where the last read can be
/// undone.
pub struct VecAndIndex<T> {
    vec: Vec<T>,
    next_pos: usize,
}

/// A `VecAndIndex` as a value: the items, and how many of them have been read.
pub struct Cursor<T> {
    pub items: Seq<T>,
    pub position: nat,
}

impl<T> View for VecAndIndex<T> {
    type V = Cursor<T>;

    closed spec fn view(&self) -> Cursor<T> {
        Cursor { items: self.vec@, position: self.next_pos as nat }
    }
}

impl<T> VecAndIndex<T> {
    /// The read position lies within the items or at their end.
    #[verifier::type_invariant]
    pub open spec fn in_bounds(self) -> bool {
        self@.position <= self@.items.len()
    }

    /// A cursor at the front of `vec`.
    pub fn new(vec: Vec<T>) -> (cursor: Self)
        ensures
            cursor@ == (Cursor { items: vec@, position: 0 }),
    {
        VecAndIndex { vec, next_pos: 0 }
    }

    /// How many items have been read.
    pub fn position(&self) -> (position: usize)
        ensures
            position == self@.position,
            position <= self@.items.len(),
    {
        proof {
            use_type_invariant(self);
        }
        self.next_pos
    }

    /// All the items, read or not.
    pub fn items(&self) -> (items: &Vec<T>)
        ensures
            items@ == self@.items,
    {
        &self.vec
    }

    /// Reads the item at the read position and moves past it. At the end there is nothing
    /// to read and the position stays.
    pub fn read_next_token(&mut self) -> (token: Option<&T>)
        ensures
            final(self)@.items == old(self)@.items,
            match token {
                Some(item) => {
                    &&& old(self)@.position < old(self)@.items.len()
                    &&& *item == old(self)@.items[old(self)@.position as int]
                    &&& final(self)@.position == old(self)@.position + 1
                },
                None => {
                    &&& old(self)@.position == old(self)@.items.len()
                    &&& final(self)@.position == old(self)@.position
                },
            },
    {
        proof {
            use_type_invariant(&*self);
        }
        if self.next_pos < self.vec.len() {
            let at: usize = self.next_pos;
            self.next_pos = at + 1;
            Some(&self.vec[at])
        } else {
            None
        }
    }

    /// Moves the read position back by one item.
    pub fn backtrack(&mut self)
        requires
            old(self)@.position > 0,
        ensures
            final(self)@ == (Cursor { position: (old(self)@.position - 1) as nat, ..old(self)@ }),
    {
        proof {
            use_type_invariant(&*self);
        }
        self.next_pos = self.next_pos - 1;
    }
}

} // verus!
