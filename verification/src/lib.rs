//! Generic self-referencing containers, verified.
//!
//! The crate packages a value (the owner) together with data derived from
//! it (the view) into one relocatable unit. The owner lives in stable heap
//! storage, so moving the unit never moves the owner's bytes; the view is
//! populated and read only through closures run by the container, so no
//! borrow handed to such a closure can outlive the container itself.
//!
//! A view names places inside the owner by plain values — indices,
//! offsets, keys, copies of owner data — rather than by raw borrows.
//! That keeps the pair relocatable without any lifetime trickery, and it
//! is what lets every operation here carry a verified contract: the
//! container is a pair of ordinary values, and each operation says
//! exactly how it reads or rewrites them.

use vstd::prelude::*;

pub mod storage;

use crate::storage::AliasedBox;

verus! {

/// The capability a view type must supply so a container can carry it
/// across the boundary between the caller's scope and the container's own
/// storage. Every method must hand the value through unchanged: the
/// contract of each operation demands that the result is the very value
/// that went in, and implementations are verified against that contract,
/// so a container can rely on the view never being altered in transit.
pub trait DerefWithLifetime: Sized {
    /// Borrow the stored view for the duration of one read.
    fn deref_with_lifetime(&self) -> (r: &Self)
        ensures
            r == self,
    ;

    /// Borrow the stored view mutably for the duration of one mutation.
    fn deref_with_lifetime_mut(&mut self) -> (r: &mut Self)
        ensures
            *r == *old(self),
            *final(self) == *final(r),
    ;

    /// Move the view out of a consumed container.
    fn move_with_lifetime(self) -> (r: Self)
        ensures
            r == self,
    ;

    /// Move a freshly built view into a container.
    fn move_with_lifetime_back(this: Self) -> (r: Self)
        ensures
            r == this,
    ;
}

/// A relocatable unit made of one owner in stable heap storage and one
/// view whose data is derived from that owner. The container can be moved
/// freely — only the handle to the owner's heap cell moves, never the
/// owner's bytes — while every operation that touches the view runs a
/// caller-supplied closure against the owner's stable address.
#[derive(Debug)]
pub struct SRS<Owner, U> where U: DerefWithLifetime {
    // The view stands before the owner so that it is torn down first:
    // were its destructor ever to inspect derived data, the owner it was
    // derived from would still be alive.
    user: U,
    owner: AliasedBox<Owner>,
}

impl<Owner, U> SRS<Owner, U> where U: DerefWithLifetime {
    /// The owner value held by the container.
    pub closed spec fn owner_value(&self) -> Owner {
        self.owner.value()
    }

    /// The view value held by the container.
    pub closed spec fn user_value(&self) -> U {
        self.user
    }

    /// Creates a container whose view is still the view type's default
    /// value; [`SRS::with`] populates it afterwards.
    pub fn new(owner: Owner) -> (s: Self) where U: Default
        ensures
            s.owner_value() == owner,
            call_ensures(U::default, (), s.user_value()),
    {
        SRS { user: U::default(), owner: AliasedBox::allocate(owner) }
    }

    /// Creates a container and builds the initial view in one go: `f`
    /// receives a borrow of the freshly stored owner and returns the view
    /// to keep.
    pub fn create_with<F: FnOnce(&Owner) -> U>(owner: Owner, f: F) -> (s: Self)
        requires
            call_requires(f, (&owner,)),
        ensures
            s.owner_value() == owner,
            call_ensures(f, (&owner,), s.user_value()),
    {
        let owner = AliasedBox::allocate(owner);
        let user = U::move_with_lifetime_back(f(owner.borrow()));
        SRS { user, owner }
    }

    /// The primary mutation entry point: `f` receives the view mutably
    /// and the owner read-only, both scoped to this call, and returns a
    /// result independent of that scope.
    pub fn with<Z, F: FnOnce(&mut U, &Owner) -> Z>(&mut self, f: F) -> (r: Z)
        requires
            forall|u: &mut U| *u == old(self).user_value() ==> call_requires(f, (u, &old(self).owner_value())),
        ensures
            final(self).owner_value() == old(self).owner_value(),
            exists|u: &mut U| *u == old(self).user_value() && *final(u) == final(self).user_value()
                && call_ensures(f, (u, &old(self).owner_value()), r),
    {
        f(self.user.deref_with_lifetime_mut(), self.owner.borrow())
    }

    /// The read entry point: `f` receives the view and the owner read-only
    /// and may hand back a reference living as long as the container's own
    /// borrow, so existing derived data can be used outside the call.
    pub fn get_ref<'b, Z, F: FnOnce(&'b U, &'b Owner) -> &'b Z>(&'b self, f: F) -> (r: &'b Z)
        requires
            call_requires(f, (&self.user_value(), &self.owner_value())),
        ensures
            call_ensures(f, (&self.user_value(), &self.owner_value()), r),
    {
        f(self.user.deref_with_lifetime(), self.owner.borrow())
    }

    /// Consumes the container: the owner moves into the caller's `new`
    /// slot — unchanged, still at the stable address it has lived at — and
    /// the view is returned by value. The value previously in `new` is
    /// dropped with the container's storage. There is no inverse: nothing
    /// could check that a free-standing view was derived from a given
    /// owner, so extraction is deliberately irreversible.
    pub fn split(self, new: &mut Box<Owner>) -> (u: U)
        ensures
            u == self.user_value(),
            *final(new) == self.owner_value(),
    {
        let SRS { user, mut owner } = self;
        owner.replace(new);
        U::move_with_lifetime(user)
    }

    /// Read-only access to the owner without going through a closure.
    pub fn borrow_owner(&self) -> (r: &Owner)
        ensures
            *r == self.owner_value(),
    {
        self.owner.borrow()
    }
}

impl<Owner: Default, U: Default + DerefWithLifetime> Default for SRS<Owner, U> {
    fn default() -> (s: Self)
        ensures
            call_ensures(Owner::default, (), s.owner_value()),
            call_ensures(U::default, (), s.user_value()),
    {
        SRS { user: U::default(), owner: AliasedBox::default() }
    }
}

/// Law: reading back through the view yields what the construction
/// closure computed. A container built by [`SRS::create_with`] satisfies
/// the first two premises; if the closure's contract pins the view it
/// computes, the view stored in the container — the very value every
/// later [`SRS::get_ref`] hands to its reader — is that computed view.
pub proof fn lemma_create_with_reads_back<Owner, U: DerefWithLifetime, F: FnOnce(&Owner) -> U>(
    s: SRS<Owner, U>,
    owner: Owner,
    f: F,
    computed: U,
)
    requires
        s.owner_value() == owner,
        call_ensures(f, (&owner,), s.user_value()),
        forall|u: U| call_ensures(f, (&owner,), u) ==> u == computed,
    ensures
        s.user_value() == computed,
{
}

/// Law: relocating a container changes nothing a caller can observe. A
/// move carries the container's value unchanged — the owner's bytes stay
/// at their stable heap address and the view is moved bit-for-bit — and
/// the contracts of [`SRS::with`], [`SRS::get_ref`] and [`SRS::split`]
/// depend only on the owner and view values, never on where the container
/// itself sits.
pub proof fn lemma_move_preserves_observations<Owner, U: DerefWithLifetime>(
    before: SRS<Owner, U>,
    after: SRS<Owner, U>,
)
    requires
        after == before,
    ensures
        after.owner_value() == before.owner_value(),
        after.user_value() == before.user_value(),
{
}

/// Law: a mutation is observed by the next read. The second premise is
/// the postcondition of [`SRS::with`]; if the mutation closure's contract
/// pins the view it leaves behind, then the container's view after the
/// call — the value a following [`SRS::get_ref`] reads — is exactly that
/// written view.
pub proof fn lemma_with_then_get_ref<Owner, U: DerefWithLifetime, Z, F: FnOnce(&mut U, &Owner) -> Z>(
    pre: SRS<Owner, U>,
    post: SRS<Owner, U>,
    f: F,
    r: Z,
    written: U,
)
    requires
        post.owner_value() == pre.owner_value(),
        exists|u: &mut U|
            *u == pre.user_value() && *final(u) == post.user_value() && call_ensures(
                f,
                (u, &pre.owner_value()),
                r,
            ),
        forall|u: &mut U, z: Z|
            call_ensures(f, (u, &pre.owner_value()), z) ==> *final(u) == written,
    ensures
        post.user_value() == written,
{
}

/// The built-in instance for plain borrowed references, so a view that is
/// nothing but a reference to lifetime-independent data needs no
/// caller-defined view type.
impl<'z, Z> DerefWithLifetime for &'z Z {
    fn deref_with_lifetime(&self) -> (r: &Self) {
        self
    }

    fn deref_with_lifetime_mut(&mut self) -> (r: &mut Self) {
        self
    }

    fn move_with_lifetime(self) -> (r: Self) {
        self
    }

    fn move_with_lifetime_back(this: Self) -> (r: Self) {
        this
    }
}

/// The built-in instance for a bare index, the simplest view that names a
/// place inside the owner by a plain value.
impl DerefWithLifetime for usize {
    fn deref_with_lifetime(&self) -> (r: &Self) {
        self
    }

    fn deref_with_lifetime_mut(&mut self) -> (r: &mut Self) {
        self
    }

    fn move_with_lifetime(self) -> (r: Self) {
        self
    }

    fn move_with_lifetime_back(this: Self) -> (r: Self) {
        this
    }
}

} // verus!
