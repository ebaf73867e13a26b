//! The pointer model: an address, and what it leads to.

use vstd::prelude::*;

verus! {

/// Where a pointer came from, which decides what it gives access to.
#[derive(Clone, Copy, Debug, PartialEq, Eq, Structural)]
pub enum Origin {
    /// A bare address. The memory behind it, if any, is out of reach.
    Address,
    /// An exclusive borrow of a payload that someone else owns.
    Borrow,
    /// A payload in storage of the global allocator, owned by the pointer.
    Heap,
}

/// What an address leads to.
enum Target<'a, T: ?Sized> {
    Absent,
    Borrowed(&'a mut T),
    Boxed(Box<T>),
}

/// An address together with the access to memory that came with it.
///
/// The null pointer has address 0 and leads nowhere.
pub struct Pointer<'a, T: ?Sized> {
    address: usize,
    target: Target<'a, T>,
}

/// The address of `place`, through `core::ptr::from_ref` and `addr`.
///
/// Claims only that the address is not 0: references are never null. Which
/// address comes back is up to the allocator and the stack, so nothing else
/// is said of it.
#[verifier::external_body]
fn address_of<T: ?Sized>(place: &T) -> (address: usize)
    ensures
        address != 0,
{
    core::ptr::from_ref(place).addr()
}

impl<'a, T: ?Sized> Pointer<'a, T> {
    /// The address that the pointer holds.
    pub closed spec fn spec_address(&self) -> usize {
        self.address
    }

    /// Whether this is the address 0.
    pub open spec fn spec_is_null(&self) -> bool {
        self.address() == 0
    }

    /// Where the pointer came from.
    pub closed spec fn spec_origin(&self) -> Origin {
        match &self.target {
            Target::Absent => Origin::Address,
            Target::Borrowed(_) => Origin::Borrow,
            Target::Boxed(_) => Origin::Heap,
        }
    }

    /// Whether the pointer leads to a payload.
    pub open spec fn is_live(&self) -> bool {
        self.origin() != Origin::Address
    }

    /// The payload that the pointer leads to.
    pub closed spec fn payload(&self) -> &T
        recommends
            self.is_live(),
    {
        match &self.target {
            Target::Absent => arbitrary(),
            Target::Borrowed(place) => &**place,
            Target::Boxed(place) => &**place,
        }
    }

    /// The reference that a borrowing pointer holds. What the lender finds
    /// in the place once the borrow has ended is what this reference is in
    /// the end.
    pub closed spec fn lent(&self) -> &'a mut T
        recommends
            self.origin() == Origin::Borrow,
    {
        match self.target {
            Target::Borrowed(place) => place,
            _ => arbitrary(),
        }
    }

    /// The null pointer.
    pub fn null() -> (ptr: Self)
        ensures
            ptr.address() == 0,
            ptr.origin() == Origin::Address,
    {
        Pointer { address: 0, target: Target::Absent }
    }

    /// A pointer that holds `address` and leads nowhere.
    pub fn from_address(address: usize) -> (ptr: Self)
        ensures
            ptr.address() == address,
            ptr.origin() == Origin::Address,
    {
        Pointer { address, target: Target::Absent }
    }

    /// A pointer that leads to the borrowed `place`, which lies at
    /// `address`.
    pub fn borrowed_at(address: usize, place: &'a mut T) -> (ptr: Self)
        requires
            address != 0,
        ensures
            ptr.address() == address,
            ptr.origin() == Origin::Borrow,
            ptr.payload() == &*old(place),
            &*final(ptr.lent()) == &*final(place),
    {
        Pointer { address, target: Target::Borrowed(place) }
    }

    /// A pointer that owns `place`, whose payload lies at `address`.
    pub fn boxed_at(address: usize, place: Box<T>) -> (ptr: Self)
        requires
            address != 0,
        ensures
            ptr.address() == address,
            ptr.origin() == Origin::Heap,
            ptr.payload() == &*place,
    {
        Pointer { address, target: Target::Boxed(place) }
    }

    /// A pointer to a borrowed payload, with the address at which it lies.
    /// It is never null. What is written through the pointer is written to
    /// `place`.
    pub fn from_mut(place: &'a mut T) -> (ptr: Self)
        ensures
            ptr.address() != 0,
            ptr.origin() == Origin::Borrow,
            ptr.payload() == &*old(place),
            &*final(ptr.lent()) == &*final(place),
    {
        let address = address_of(&*place);
        Self::borrowed_at(address, place)
    }

    /// A pointer to a payload on the heap, which it owns from now on, with
    /// the address at which the payload lies. It is never null.
    pub fn from_box(place: Box<T>) -> (ptr: Self)
        ensures
            ptr.address() != 0,
            ptr.origin() == Origin::Heap,
            ptr.payload() == &*place,
    {
        let address = address_of(&*place);
        Self::boxed_at(address, place)
    }

    /// The address that the pointer holds.
    #[verifier::when_used_as_spec(spec_address)]
    pub fn address(&self) -> (address: usize)
        ensures
            address == self.spec_address(),
    {
        self.address
    }

    /// Whether this is a null pointer.
    #[verifier::when_used_as_spec(spec_is_null)]
    pub fn is_null(&self) -> (null: bool)
        ensures
            null == self.spec_is_null(),
    {
        self.address == 0
    }

    /// Where the pointer came from.
    #[verifier::when_used_as_spec(spec_origin)]
    pub fn origin(&self) -> (origin: Origin)
        ensures
            origin == self.spec_origin(),
    {
        match &self.target {
            Target::Absent => Origin::Address,
            Target::Borrowed(_) => Origin::Borrow,
            Target::Boxed(_) => Origin::Heap,
        }
    }

    /// The payload, for reading.
    pub fn as_ref(&self) -> (payload: &T)
        requires
            self.is_live(),
        ensures
            payload == self.payload(),
    {
        match &self.target {
            Target::Absent => vstd::pervasive::unreached(),
            Target::Borrowed(place) => &**place,
            Target::Boxed(place) => &**place,
        }
    }

    /// The payload, for writing. Address and origin stay as they are; the
    /// payload becomes what the caller leaves behind the reference. A
    /// borrowing pointer still writes to the place that it borrowed.
    pub fn as_mut(&mut self) -> (payload: &mut T)
        requires
            old(self).is_live(),
        ensures
            &*payload == old(self).payload(),
            final(self).payload() == &*final(payload),
            final(self).address() == old(self).address(),
            final(self).origin() == old(self).origin(),
            &*final(final(self).lent()) == &*final(old(self).lent()),
    {
        match &mut self.target {
            Target::Absent => vstd::pervasive::unreached(),
            Target::Borrowed(place) => &mut **place,
            Target::Boxed(place) => &mut **place,
        }
    }

    /// Takes the payload back out of a heap pointer, as the `Box` that it
    /// was made from.
    pub fn into_box(self) -> (place: Box<T>)
        requires
            self.origin() == Origin::Heap,
        ensures
            &*place == self.payload(),
    {
        match self.target {
            Target::Boxed(place) => place,
            _ => vstd::pervasive::unreached(),
        }
    }

    /// When a borrowing pointer is gone, the place that it borrowed holds
    /// the payload that the pointer had last.
    pub proof fn borrow_ends_with_payload(self)
        requires
            has_resolved(self),
            self.origin() == Origin::Borrow,
        ensures
            &*final(self.lent()) == self.payload(),
    {
    }
}

} // verus!
