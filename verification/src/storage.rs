//! Stable heap storage for the owner half of a container.

use vstd::prelude::*;

verus! {

/// Stable heap storage for the owner half of a self-referencing container.
///
/// The owner value lives behind a heap indirection, so the address of its
/// bytes is fixed for the whole lifetime of the storage handle: relocating
/// whatever struct holds the handle never relocates the owner itself. The
/// handle is deliberately kept as the only way to reach the owner, and all
/// reads go through [`AliasedBox::borrow`], so a container built on top of
/// it can hand out long-lived views of the owner without ever exposing the
/// handle's own location.
#[derive(Debug)]
pub struct AliasedBox<Owner> {
    ptr: Box<Owner>,
}

impl<Owner: Default> Default for AliasedBox<Owner> {
    /// Storage holding the owner type's default value.
    fn default() -> (s: Self)
        ensures
            call_ensures(Owner::default, (), s.value()),
    {
        AliasedBox { ptr: Box::new(Owner::default()) }
    }
}

impl<Owner> AliasedBox<Owner> {
    /// The owner value currently held by the storage.
    pub closed spec fn value(&self) -> Owner {
        *self.ptr
    }

    /// Moves `owner` onto the heap and returns the storage handle.
    pub fn allocate(owner: Owner) -> (s: Self)
        ensures
            s.value() == owner,
    {
        AliasedBox { ptr: Box::new(owner) }
    }

    /// Read-only access to the stored owner through its stable address.
    pub fn borrow(&self) -> (r: &Owner)
        ensures
            *r == self.value(),
    {
        &*self.ptr
    }

    /// Swaps the stored owner with the box behind `slot`, handing the
    /// previous owner to the caller and adopting the caller's value.
    pub fn replace(&mut self, slot: &mut Box<Owner>)
        ensures
            final(self).value() == *old(slot),
            *final(slot) == old(self).value(),
    {
        core::mem::swap(&mut self.ptr, slot);
    }
}

} // verus!
