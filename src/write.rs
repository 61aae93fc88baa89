use vstd::prelude::*;

use std::sync::Arc;

use crate::cell::WriteCell;

verus! {

/// A write capability: a handle whose holder claims the sole right to
/// mutate whatever the handle reaches.
///
/// The handle may be a unique reference, a shared allocation, or a
/// reference to another capability; capabilities over references to
/// capabilities are flattened with [`Write::project`].
pub struct Write<P> {
    pointer: P,
}

impl<P> Write<P> {
    /// The handle the capability wraps.
    pub closed spec fn pointer(self) -> P {
        self.pointer
    }

    /// Once a capability is done with, so is the handle it wraps.
    pub broadcast proof fn lemma_resolved(write: Write<P>)
        ensures
            #[trigger] has_resolved(write) ==> has_resolved(write.pointer()),
    {
    }

    /// Wraps `pointer` in a capability without checking anything.
    ///
    /// The caller vouches, by means outside this type (a dispatch
    /// invariant, a single-writer schedule), that nobody else mutates what
    /// `pointer` reaches while the capability lives.
    pub fn new_unchecked(pointer: P) -> (write: Write<P>)
        ensures
            write.pointer() == pointer,
    {
        Write { pointer }
    }

    /// The wrapped handle, borrowed.
    pub fn as_inner(write: &Write<P>) -> (pointer: &P)
        ensures
            *pointer == write.pointer(),
    {
        &write.pointer
    }

    /// Drops the claim and gives the handle back.
    pub fn into_inner(write: Write<P>) -> (pointer: P)
        ensures
            pointer == write.pointer(),
    {
        write.pointer
    }
}

impl<'a, T> Write<&'a mut T> {
    /// What the capability reaches now.
    pub open spec fn target(self) -> T {
        *self.pointer()
    }

    /// A capability over a reference that the borrow checker already knows to
    /// be unique.
    pub fn from_mut(r: &'a mut T) -> (write: Write<&'a mut T>)
        ensures
            write.target() == *old(r),
            *final(write.pointer()) == *final(r),
    {
        Write { pointer: r }
    }

    /// A capability over the target, borrowed from this one: while it lives
    /// this one is unusable, so the claim is lent out, never duplicated.
    pub fn as_ref(&mut self) -> (write: Write<&mut T>)
        ensures
            write.target() == old(self).target(),
            final(self).target() == *final(write.pointer()),
            *final(final(self).pointer()) == *final(old(self).pointer()),
    {
        Write { pointer: &mut *self.pointer }
    }

    /// A capability over a part of the target, picked out by `f`.
    ///
    /// `f` is handed the wrapped reference; the result wraps the reference
    /// that `f` returns, and reaches what it reached when `f` returned it.
    pub fn map_unchecked<U, F>(self, f: F) -> (write: Write<&'a mut U>)
        where
            F: FnOnce(&'a mut T) -> &'a mut U,
        requires
            forall|r: &'a mut T| *r == self.target() ==> f.requires((r,)),
        ensures
            exists|r: &'a mut T, part: &'a mut U|
                *r == self.target() && #[trigger] f.ensures((r,), part) && *part == write.target(),
    {
        Write { pointer: f(self.pointer) }
    }
}

impl<'a, T> Write<&'a mut WriteCell<T>> {
    /// A mutable reference to the contents of the cell the handle reaches.
    ///
    /// Whatever is stored through it is what the cell holds afterwards.
    pub fn write(&mut self) -> (r: &mut T)
        ensures
            *r == old(self).target()@,
            final(self).target()@ == *final(r),
            *final(final(self).pointer()) == *final(old(self).pointer()),
    {
        self.pointer.get_mut()
    }
}

/// A value stored through `write` on a capability over a cell is what the
/// cell holds once the capability is done with: `before` is the capability
/// as `write` found it, `after` as it left it, `value` what was stored.
pub proof fn lemma_write_visible<T>(
    before: Write<&mut WriteCell<T>>,
    after: Write<&mut WriteCell<T>>,
    value: T,
)
    requires
        after.target()@ == value,
        *final(after.pointer()) == *final(before.pointer()),
        has_resolved(after),
    ensures
        (*final(before.pointer()))@ == value,
{
}

/// Writing through a capability derived with `as_ref` changes the same cell
/// as writing through the original capability would: `orig` and
/// `orig_after` are the original before and after `as_ref`, `derived` and
/// `derived_after` the derived capability before and after `write` stored
/// `value`.
pub proof fn lemma_derived_write_same_cell<T>(
    orig: Write<&mut WriteCell<T>>,
    orig_after: Write<&mut WriteCell<T>>,
    derived: Write<&mut WriteCell<T>>,
    derived_after: Write<&mut WriteCell<T>>,
    value: T,
)
    requires
        derived.target() == orig.target(),
        orig_after.target() == *final(derived.pointer()),
        *final(orig_after.pointer()) == *final(orig.pointer()),
        derived_after.target()@ == value,
        *final(derived_after.pointer()) == *final(derived.pointer()),
        has_resolved(derived_after),
        has_resolved(orig_after),
    ensures
        (*final(orig.pointer()))@ == value,
{
    lemma_write_visible(derived, derived_after, value);
}

impl<'a, 'b, T> Write<&'a mut Write<&'b mut T>> {
    /// Collapses a capability over a reference to a capability into one
    /// capability over the inner capability's target.
    ///
    /// The result reaches the same storage as the inner capability: what is
    /// stored through it is what the inner capability holds afterwards.
    pub fn project(self) -> (write: Write<&'a mut T>)
        ensures
            write.target() == self.target().target(),
            (*final(self.pointer())).target() == *final(write.pointer()),
            *final((*final(self.pointer())).pointer()) == *final(self.target().pointer()),
    {
        Write { pointer: &mut *self.pointer.pointer }
    }
}

impl<'a, T> core::ops::Deref for Write<&'a mut T> {
    type Target = T;

    fn deref(&self) -> (r: &T)
        ensures
            *r == self.target(),
    {
        &*self.pointer
    }
}

impl<'a, T> core::ops::DerefMut for Write<&'a mut T> {
    fn deref_mut(&mut self) -> (r: &mut T)
        ensures
            *r == old(self).target(),
            final(self).target() == *final(r),
            *final(final(self).pointer()) == *final(old(self).pointer()),
    {
        &mut *self.pointer
    }
}

impl<T> core::ops::Deref for Write<Arc<T>> {
    type Target = T;

    fn deref(&self) -> (r: &T)
        ensures
            *r == *self.pointer(),
    {
        &*self.pointer
    }
}

impl<T> Write<Arc<T>> {
    /// Allocates `value` behind a shared pointer and wraps that pointer in a
    /// capability.
    ///
    /// Every clone of the pointer reaches the same value; the caller vouches
    /// that no holder of such a clone mutates it while the capability lives.
    pub fn new_arc(value: T) -> (write: Write<Arc<T>>)
        ensures
            *write.pointer() == value,
    {
        let arc = Arc::new(value);
        Write::new_unchecked(arc)
    }
}

} // verus!
