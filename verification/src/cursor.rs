//! The cursor of a staging array: an index that never leaves the array's
//! range.

use vstd::prelude::*;

verus! {

/// An index into an array of `N` slots, or one past its last slot. The type
/// keeps `N` at one or more and the index at `N` or less, so that whoever
/// holds a cursor need not ask for either.
pub struct Cursor<const N: usize> {
    at: usize,
}

impl<const N: usize> Cursor<N> {
    /// The index that the cursor stands at.
    pub closed spec fn index(&self) -> int {
        self.at as int
    }

    /// What the type keeps: the array has a slot, and the cursor stands at
    /// one of its slots or one past the last.
    #[verifier::type_invariant]
    pub open spec fn in_range(&self) -> bool {
        &&& 1 <= N
        &&& 0 <= self.index() <= N
    }

    /// A cursor at the first slot.
    pub fn start() -> (cursor: Self)
        requires
            1 <= N,
        ensures
            cursor.index() == 0,
    {
        Cursor { at: 0 }
    }

    /// The index that the cursor stands at, which is `N` at most.
    pub fn get(&self) -> (at: usize)
        ensures
            at == self.index(),
            at <= N,
    {
        proof {
            use_type_invariant(self);
        }
        self.at
    }

    /// Moves the cursor to `at`.
    pub fn set(&mut self, at: usize)
        requires
            at <= N,
        ensures
            final(self).index() == at,
    {
        proof {
            use_type_invariant(&*self);
        }
        self.at = at;
    }

    /// Moves the cursor one slot forward.
    pub fn advance(&mut self)
        requires
            old(self).index() < N,
        ensures
            final(self).index() == old(self).index() + 1,
    {
        proof {
            use_type_invariant(&*self);
        }
        self.at += 1;
    }

    /// Moves the cursor one slot back.
    pub fn retreat(&mut self)
        requires
            old(self).index() > 0,
        ensures
            final(self).index() == old(self).index() - 1,
    {
        proof {
            use_type_invariant(&*self);
        }
        self.at -= 1;
    }
}

} // verus!
