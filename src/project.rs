use vstd::prelude::*;

use crate::write::Write;

verus! {

/// Flattening of a capability over a reference to `Self` into a capability
/// over what `Self` reaches.
pub trait Project<'a>: Sized {
    /// The capability that projection yields.
    type Target;

    /// Whether `target` reads, through one layer, what `inner` reads.
    spec fn reads_as(inner: Self, target: Self::Target) -> bool;

    /// Merges the two layers of indirection of `this` into one.
    fn project(this: Write<&'a mut Self>) -> (target: Self::Target)
        ensures
            Self::reads_as(this.target(), target),
    ;
}

impl<'a, 'b, T: 'a> Project<'a> for Write<&'b mut T> {
    type Target = Write<&'a mut T>;

    open spec fn reads_as(inner: Write<&'b mut T>, target: Write<&'a mut T>) -> bool {
        target.target() == inner.target()
    }

    fn project(this: Write<&'a mut Write<&'b mut T>>) -> Write<&'a mut T> {
        this.project()
    }
}

/// Projection behaves as a direct capability over the inner capability's
/// target: it reads the same value now, and what is stored through it is what
/// that target holds once the inner capability is done with.
///
/// `outer` is the capability over a reference to the inner capability,
/// `projected` what `project` made of it.
pub proof fn lemma_project_as_direct<T>(
    outer: Write<&mut Write<&mut T>>,
    projected: Write<&mut T>,
)
    requires
        projected.target() == outer.target().target(),
        (*final(outer.pointer())).target() == *final(projected.pointer()),
        *final((*final(outer.pointer())).pointer()) == *final(outer.target().pointer()),
        has_resolved(*final(outer.pointer())),
    ensures
        *final(projected.pointer()) == *final(outer.target().pointer()),
{
    broadcast use Write::lemma_resolved;
}

} // verus!
