use vstd::prelude::*;

verus! {

/// A cell for data that is only ever touched by the single hart of a
/// uniprocessor kernel. Access is exclusive: whoever holds the cell mutably
/// may hand out one mutable borrow of its content at a time.
pub struct UPSafeCell<T> {
    inner: T,
}

impl<T> View for UPSafeCell<T> {
    type V = T;

    /// The value held in the cell.
    closed spec fn view(&self) -> T {
        self.inner
    }
}

impl<T> UPSafeCell<T> {
    /// Wraps `value` in a cell.
    pub fn new(value: T) -> (cell: Self)
        ensures
            cell@ == value,
    {
        Self { inner: value }
    }

    /// Exclusive access to the content: the borrow starts out as the held
    /// value, and whatever the borrower leaves in it is what the cell holds
    /// afterwards.
    pub fn exclusive_access(&mut self) -> (inner: &mut T)
        ensures
            *inner == old(self)@,
            final(self)@ == *final(inner),
    {
        &mut self.inner
    }
}

} // verus!
