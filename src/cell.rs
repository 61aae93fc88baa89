use vstd::prelude::*;

verus! {

/// A storage cell: one value of `T`, handed out for mutation to whoever
/// holds write access to the cell.
pub struct WriteCell<T> {
    value: T,
}

impl<T> View for WriteCell<T> {
    type V = T;

    /// The value the cell currently holds.
    closed spec fn view(&self) -> T {
        self.value
    }
}

impl<T> WriteCell<T> {
    /// The cell that holds `value`.
    pub closed spec fn spec_new(value: T) -> WriteCell<T> {
        WriteCell { value }
    }

    /// Consuming a freshly built cell gives back the value it was built
    /// from, unchanged.
    pub proof fn lemma_round_trip(value: T)
        ensures
            Self::spec_new(value)@ == value,
    {
    }

    /// Wraps `value` in a new cell.
    pub fn new(value: T) -> (cell: WriteCell<T>)
        ensures
            cell == Self::spec_new(value),
            cell@ == value,
    {
        WriteCell { value }
    }

    /// A mutable reference to the contents, for a caller that already holds
    /// the cell exclusively.
    pub fn get_mut(&mut self) -> (r: &mut T)
        ensures
            *r == old(self)@,
            final(self)@ == *final(r),
    {
        &mut self.value
    }

    /// Ends the cell's life and gives its value back.
    pub fn into_inner(self) -> (value: T)
        ensures
            value == self@,
    {
        self.value
    }
}

} // verus!
