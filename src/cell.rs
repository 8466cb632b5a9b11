use vstd::prelude::*;

verus! {

/// A container that holds exactly one value of type `T` from construction
/// until it is dropped.
///
/// Mutation goes through an exclusive borrow (`&mut self`). That borrow is
/// what rules out the hazards a shared-handle cell must guard against by
/// convention: no two threads can touch the slot at once, and no operation
/// can be re-entered on the same instance while it is in progress (the
/// value being discarded can never reach back into the container it is
/// leaving).
pub struct Cell<T> {
    value: T,
}

impl<T> View for Cell<T> {
    type V = T;

    /// The value the cell currently holds.
    closed spec fn view(&self) -> T {
        self.value
    }
}

impl<T> Cell<T> {
    /// Builds a cell that holds `value`.
    pub fn new(value: T) -> (r: Cell<T>)
        ensures
            r@ == value,
    {
        Cell { value }
    }

    /// Stores `val` in place of the held value, which is dropped.
    pub fn set(&mut self, val: T)
        ensures
            final(self)@ == val,
    {
        self.value = val;
    }

    /// Exchanges the held values of `self` and `other`: each ends up with
    /// what the other held. Ownership moves between the two slots; nothing
    /// is copied, so any `T` will do. Swapping a cell with itself cannot be
    /// written: the two exclusive borrows would alias, which the borrow
    /// checker refuses.
    pub fn swap(&mut self, other: &mut Cell<T>)
        ensures
            final(self)@ == old(other)@,
            final(other)@ == old(self)@,
    {
        core::mem::swap(&mut self.value, &mut other.value);
    }

    /// Stores `val` in place of the held value and hands the held value
    /// back to the caller, who now owns it.
    pub fn replace(&mut self, val: T) -> (r: T)
        ensures
            r == old(self)@,
            final(self)@ == val,
    {
        let mut prior = val;
        core::mem::swap(&mut self.value, &mut prior);
        prior
    }
}

impl<T: Copy> Cell<T> {
    /// Hands out a copy of the held value; the cell is left as it was.
    pub fn get(&self) -> (r: T)
        ensures
            r == self@,
    {
        self.value
    }
}

} // verus!
