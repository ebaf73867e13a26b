//! The owning pointer.

use crate::deleter::{Deleter, GlobalDeleter};
use crate::pointer::{Origin, Pointer};
use vstd::prelude::*;

verus! {

/// The owner of one pointer, with the deleter that will dispose of it.
///
/// An owner is valid ([`Unique::wf`]) when its pointer is not null and its
/// deleter accepts it. The constructors give valid owners, and nothing that
/// an owner offers makes a valid one invalid.
///
/// The pointer leaves in one of two ways, each of which uses the owner up:
/// [`Unique::release`] gives pointer and deleter back as they are,
/// [`Unique::dispose`] hands the pointer to the deleter, once. Owners cannot
/// be copied, so no pointer reaches a deleter twice.
///
/// An owner that merely goes out of scope has called neither. Its deleter
/// is not run then; the pointer is let go as any value is, which ends a
/// borrow and frees a `Box`.
pub struct Unique<'a, T: ?Sized, D: Deleter> {
    inner: Pointer<'a, T>,
    deleter: D,
}

/// An owner of a payload on the heap.
pub type Global<T> = Unique<'static, T, GlobalDeleter>;

impl<'a, T: ?Sized, D: Deleter> Unique<'a, T, D> {
    /// The pointer that is owned.
    pub closed spec fn pointer(&self) -> Pointer<'a, T> {
        self.inner
    }

    /// The deleter that will dispose of the pointer.
    pub closed spec fn deleter(&self) -> D {
        self.deleter
    }

    /// The address that is owned.
    pub open spec fn address(&self) -> usize {
        self.pointer().address()
    }

    /// The payload that is owned, where the pointer leads to one.
    pub open spec fn payload(&self) -> &T
        recommends
            self.pointer().is_live(),
    {
        self.pointer().payload()
    }

    /// Validity: the address is not null, and the deleter accepts the
    /// pointer.
    pub open spec fn wf(&self) -> bool {
        &&& self.address() != 0
        &&& self.deleter().accepts(self.address(), self.pointer().origin())
    }

    /// Takes ownership of `ptr`, which the caller knows not to be null.
    pub fn new(ptr: Pointer<'a, T>, deleter: D) -> (owner: Self)
        requires
            ptr.address() != 0,
            deleter.accepts(ptr.address(), ptr.origin()),
        ensures
            owner.pointer() == ptr,
            owner.deleter() == deleter,
            owner.wf(),
    {
        Self::from_ptr_unchecked(ptr, deleter)
    }

    /// Takes ownership of `ptr` unless it is null. For a null pointer there
    /// is no owner, and the deleter is let go without having been used.
    pub fn from_ptr(ptr: Pointer<'a, T>, deleter: D) -> (owner: Option<Self>)
        requires
            ptr.address() != 0 ==> deleter.accepts(ptr.address(), ptr.origin()),
        ensures
            owner is None <==> ptr.address() == 0,
            owner matches Some(owner) ==> {
                &&& owner.pointer() == ptr
                &&& owner.deleter() == deleter
                &&& owner.wf()
            },
    {
        if ptr.is_null() {
            None
        } else {
            Some(Self::from_ptr_unchecked(ptr, deleter))
        }
    }

    /// Takes ownership of `ptr` without looking at it.
    pub fn from_ptr_unchecked(ptr: Pointer<'a, T>, deleter: D) -> (owner: Self)
        requires
            ptr.address() != 0,
            deleter.accepts(ptr.address(), ptr.origin()),
        ensures
            owner.pointer() == ptr,
            owner.deleter() == deleter,
            owner.wf(),
    {
        Unique { inner: ptr, deleter }
    }

    /// The address that is owned. It is never null.
    #[verifier::when_used_as_spec(address)]
    pub fn get(&self) -> (address: usize)
        requires
            self.wf(),
        ensures
            address == self.address(),
            address != 0,
    {
        self.inner.address()
    }

    /// The payload, for reading.
    pub fn as_ref(&self) -> (payload: &T)
        requires
            self.wf(),
            self.pointer().is_live(),
        ensures
            payload == self.payload(),
    {
        self.inner.as_ref()
    }

    /// The payload, for writing. Only the payload can change: address,
    /// origin and deleter stay as they are.
    pub fn as_mut(&mut self) -> (payload: &mut T)
        requires
            old(self).wf(),
            old(self).pointer().is_live(),
        ensures
            &*payload == old(self).payload(),
            final(self).payload() == &*final(payload),
            final(self).address() == old(self).address(),
            final(self).pointer().origin() == old(self).pointer().origin(),
            &*final(final(self).pointer().lent()) == &*final(old(self).pointer().lent()),
            final(self).deleter() == old(self).deleter(),
            final(self).wf(),
    {
        self.inner.as_mut()
    }

    /// The owned address, seen as the address of an `N`. The address is
    /// the same whatever `N` is, and the owner stays as it is.
    pub fn cast<N>(&self) -> (address: usize)
        requires
            self.wf(),
        ensures
            address == self.address(),
            address != 0,
    {
        self.inner.address()
    }

    /// The owned address, seen as the address of an `N` that is only read.
    pub fn const_cast<N>(&self) -> (address: usize)
        requires
            self.wf(),
        ensures
            address == self.address(),
            address != 0,
    {
        self.inner.address()
    }

    /// Exchanges what two owners own: afterwards each holds the pointer and
    /// the deleter of the other. Nothing is disposed of.
    pub fn swap(&mut self, other: &mut Self)
        requires
            old(self).wf(),
            old(other).wf(),
        ensures
            *final(self) == *old(other),
            *final(other) == *old(self),
            final(self).wf(),
            final(other).wf(),
    {
        core::mem::swap(self, other);
    }

    /// Gives up ownership without disposing of anything: the pointer comes
    /// back as it was taken, with the deleter, which has not been used.
    pub fn release(self) -> (parts: (Pointer<'a, T>, D))
        requires
            self.wf(),
        ensures
            parts.0 == self.pointer(),
            parts.1 == self.deleter(),
            parts.0.address() != 0,
    {
        (self.inner, self.deleter)
    }

    /// Ends ownership by disposing of the pointer: hands it to the deleter,
    /// once, and gives back the deleter as that call left it. Where the
    /// deleter keeps a borrowed payload as it is, the lender finds in the
    /// place what the owner had last.
    pub fn dispose(self) -> (deleter: D)
        requires
            self.wf(),
        ensures
            D::disposes(self.deleter(), self.address(), deleter),
            self.deleter().keeps_payload() && self.pointer().origin() == Origin::Borrow
                ==> &*final(self.pointer().lent()) == self.payload(),
    {
        let mut deleter = self.deleter;
        deleter.delete(self.inner);
        deleter
    }

    /// When an owner of a borrowed payload is gone without having been
    /// released, the place that it borrowed holds the payload that the
    /// owner had last.
    pub proof fn borrow_ends_with_payload(self)
        requires
            has_resolved(self),
            self.pointer().origin() == Origin::Borrow,
        ensures
            &*final(self.pointer().lent()) == self.payload(),
    {
        self.inner.borrow_ends_with_payload();
    }

    /// Releasing a new owner gives back the pointer that it was made from,
    /// unchanged, and the deleter, unused: whatever `new` returns for `ptr`
    /// and `deleter`, `release` turns it into `ptr` and `deleter` again.
    pub proof fn release_undoes_new(
        ptr: Pointer<'a, T>,
        deleter: D,
        owner: Self,
        parts: (Pointer<'a, T>, D),
    )
        requires
            ptr.address() != 0,
            call_ensures(Self::new, (ptr, deleter), owner),
            call_ensures(Self::release, (owner,), parts),
        ensures
            parts == (ptr, deleter),
            parts.0.address() == ptr.address(),
    {
    }

    /// Disposing of a new owner uses its deleter once, on the address that
    /// the owner was made from: whatever `dispose` returns, it is what one
    /// disposal of that address has made of `deleter`.
    pub proof fn dispose_uses_deleter_once(
        ptr: Pointer<'a, T>,
        deleter: D,
        owner: Self,
        after: D,
    )
        requires
            ptr.address() != 0,
            call_ensures(Self::new, (ptr, deleter), owner),
            call_ensures(Self::dispose, (owner,), after),
        ensures
            D::disposes(deleter, ptr.address(), after),
    {
    }

    /// The checked constructor gives nothing for a null pointer, and for any
    /// other pointer the owner that the trusting constructor gives.
    pub proof fn from_ptr_checks_for_null(
        ptr: Pointer<'a, T>,
        deleter: D,
        checked: Option<Self>,
        trusted: Self,
    )
        requires
            call_ensures(Self::from_ptr, (ptr, deleter), checked),
            ptr.address() != 0 ==> call_ensures(Self::new, (ptr, deleter), trusted),
        ensures
            ptr.address() == 0 ==> checked is None,
            ptr.address() != 0 ==> checked == Some(trusted),
    {
    }

    /// After a swap each owner holds the address of the other, and disposing
    /// of it disposes of that address, with the deleter that came with it.
    /// Here `a` and `b` are the owners before the swap, `swapped_a` and
    /// `swapped_b` what `swap` has made of them.
    pub proof fn swap_crosses_disposal(
        a: Self,
        b: Self,
        swapped_a: Self,
        swapped_b: Self,
        after_a: D,
        after_b: D,
    )
        requires
            a.wf(),
            b.wf(),
            swapped_a == b,
            swapped_b == a,
            call_ensures(Self::dispose, (swapped_a,), after_a),
            call_ensures(Self::dispose, (swapped_b,), after_b),
        ensures
            swapped_a.address() == b.address(),
            swapped_b.address() == a.address(),
            D::disposes(b.deleter(), b.address(), after_a),
            D::disposes(a.deleter(), a.address(), after_b),
    {
    }

    /// An owner's address is the same whatever type it is seen as: a cast
    /// to one type and a cast to another both end at the address that `get`
    /// returns, so casting there and back loses nothing.
    pub proof fn cast_keeps_address<N, M>(owner: Self, plain: usize, there: usize, back: usize)
        requires
            owner.wf(),
            call_ensures(Self::get, (&owner,), plain),
            call_ensures(Self::cast::<N>, (&owner,), there),
            call_ensures(Self::const_cast::<M>, (&owner,), back),
        ensures
            there == plain,
            back == plain,
            plain != 0,
    {
    }
}

impl<'a, T: ?Sized> From<&'a mut T> for Unique<'a, T, ()> {
    /// An owner that stands for a borrowed payload. Its deleter disposes of
    /// nothing, and what is written through the owner is written to `place`.
    fn from(place: &'a mut T) -> (owner: Self)
        ensures
            owner.wf(),
            owner.pointer().origin() == Origin::Borrow,
            owner.payload() == &*old(place),
            &*final(owner.pointer().lent()) == &*final(place),
    {
        Self::from_ptr_unchecked(Pointer::from_mut(place), ())
    }
}

impl<'a, T: ?Sized> vstd::std_specs::convert::FromSpecImpl<&'a mut T> for Unique<'a, T, ()> {
    /// The address of the owner depends on where the payload lies, so the
    /// conversion is no function of the payload alone.
    open spec fn obeys_from_spec() -> bool {
        false
    }

    open spec fn from_spec(place: &'a mut T) -> Self {
        arbitrary()
    }
}

impl<T: ?Sized + 'static> From<Box<T>> for Global<T> {
    /// Adopts a payload on the heap.
    fn from(place: Box<T>) -> (owner: Self)
        ensures
            owner.wf(),
            owner.pointer().origin() == Origin::Heap,
            owner.payload() == &*place,
    {
        Self::from_ptr_unchecked(Pointer::from_box(place), GlobalDeleter)
    }
}

impl<T: ?Sized + 'static> vstd::std_specs::convert::FromSpecImpl<Box<T>> for Global<T> {
    /// The address of the owner is up to the allocator, so the conversion is
    /// no function of the payload alone.
    open spec fn obeys_from_spec() -> bool {
        false
    }

    open spec fn from_spec(place: Box<T>) -> Self {
        arbitrary()
    }
}

impl<T: 'static> Global<T> {
    /// Puts `val` on the heap and owns it.
    pub fn boxed(val: T) -> (owner: Self)
        ensures
            owner.wf(),
            owner.pointer().origin() == Origin::Heap,
            *owner.payload() == val,
    {
        Self::from(Box::new(val))
    }
}

impl<T: ?Sized + 'static> Global<T> {
    /// Gives the payload back as the `Box` that holds it. The deleter is not
    /// used: the `Box` is now the only owner.
    pub fn into_boxed(self) -> (place: Box<T>)
        requires
            self.wf(),
        ensures
            &*place == self.payload(),
    {
        let (ptr, _) = self.release();
        ptr.into_box()
    }

    /// Adopting a `Box` and asking for it back gives the payload that went
    /// in: whatever `from` returns for `place`, `into_boxed` turns it into
    /// `place` again.
    pub proof fn into_boxed_undoes_from(place: Box<T>, owner: Self, back: Box<T>)
        requires
            call_ensures(Self::from, (place,), owner),
            call_ensures(Self::into_boxed, (owner,), back),
        ensures
            back == place,
    {
    }
}

impl<T: Clone + 'static> Clone for Global<T> {
    /// A new owner of a clone of the payload, in storage of its own. An
    /// owner whose pointer leads nowhere has no payload to clone, and is not
    /// valid: its clone holds the same bare address.
    fn clone(&self) -> (copy: Self)
        ensures
            self.pointer().is_live() ==> {
                &&& copy.wf()
                &&& copy.pointer().origin() == Origin::Heap
                &&& cloned(*self.payload(), *copy.payload())
            },
            !self.pointer().is_live() ==> {
                &&& copy.address() == self.address()
                &&& copy.pointer().origin() == Origin::Address
            },
    {
        match self.inner.origin() {
            Origin::Address => Unique {
                inner: Pointer::from_address(self.inner.address()),
                deleter: GlobalDeleter,
            },
            _ => Self::boxed(self.inner.as_ref().clone()),
        }
    }
}

} // verus!
