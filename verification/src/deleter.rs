//! Disposal strategies.

use crate::pointer::{Origin, Pointer};
use vstd::prelude::*;

verus! {

/// `core::mem::forget` takes its argument and gives nothing back. Nothing is
/// claimed of it: the value is gone, and its destructor does not run.
pub assume_specification<T>[ core::mem::forget::<T> ](t: T);

/// How an owner disposes of the pointer it holds.
///
/// A deleter is handed each pointer by value, so it cannot be asked to
/// dispose of the same pointer again. It has no way to fail.
pub trait Deleter: Sized {
    /// Whether this deleter can dispose of a pointer with this address and
    /// origin. Whoever gives a pointer to an owner with this deleter answers
    /// for it. Unless a deleter says otherwise, it accepts every pointer.
    open spec fn accepts(&self, address: usize, origin: Origin) -> bool {
        true
    }

    /// Whether `after` is what `before` becomes by disposing of `address`
    /// once. Unless a deleter says otherwise, nothing is known of what a
    /// disposal does to it.
    open spec fn disposes(before: Self, address: usize, after: Self) -> bool {
        true
    }

    /// Whether this deleter leaves a borrowed payload as it finds it, so
    /// that the lender gets back what the pointer had last. Unless a deleter
    /// says so, it may write to the payload while it disposes of it.
    open spec fn keeps_payload(&self) -> bool {
        false
    }

    /// Disposes of `ptr`. It is never null.
    fn delete<T: ?Sized>(&mut self, ptr: Pointer<'_, T>)
        requires
            ptr.address() != 0,
            old(self).accepts(ptr.address(), ptr.origin()),
        ensures
            Self::disposes(*old(self), ptr.address(), *final(self)),
            old(self).keeps_payload() && ptr.origin() == Origin::Borrow ==> &*final(ptr.lent())
                == ptr.payload(),
    ;
}

/// The deleter that disposes of nothing: the payload is left as it is, and
/// its storage is not given back. It is the deleter of an owner that only
/// stands for memory that someone else looks after.
impl Deleter for () {
    open spec fn disposes(before: Self, address: usize, after: Self) -> bool {
        after == before
    }

    open spec fn keeps_payload(&self) -> bool {
        true
    }

    fn delete<T: ?Sized>(&mut self, ptr: Pointer<'_, T>) {
        match ptr.origin() {
            Origin::Heap => core::mem::forget(ptr.into_box()),
            Origin::Borrow => {
                proof {
                    ptr.borrow_ends_with_payload();
                }
            },
            Origin::Address => {},
        }
    }
}

/// Disposes of a heap pointer: takes the `Box` back out of it and lets it
/// go, which tears the payload down and then gives its storage back to the
/// global allocator.
pub fn boxed_deleter<T: ?Sized>(ptr: Pointer<'_, T>)
    requires
        ptr.address() != 0,
        ptr.origin() == Origin::Heap,
{
    let _place = ptr.into_box();
}

/// The deleter for payloads that the global allocator holds.
///
/// It accepts heap pointers only, so an owner with this deleter always owns
/// a `Box`, and it gives storage back in one way only: what `Box` has
/// allocated, `Box` frees, after the payload's own teardown.
#[derive(Clone, Copy, Debug, Default)]
pub struct GlobalDeleter;

impl Deleter for GlobalDeleter {
    open spec fn accepts(&self, address: usize, origin: Origin) -> bool {
        origin == Origin::Heap
    }

    open spec fn disposes(before: Self, address: usize, after: Self) -> bool {
        after == before
    }

    fn delete<T: ?Sized>(&mut self, ptr: Pointer<'_, T>) {
        boxed_deleter(ptr)
    }
}

/// The deleter that forwards the address to a callable: a function or a
/// closure that takes the address alone. The type of the payload does not
/// reach the callable, and the pointer is not touched otherwise: what lies
/// at the address is for the callable to deal with.
pub struct FnDeleter<F: FnMut(usize)> {
    callable: F,
}

impl<F: FnMut(usize)> FnDeleter<F> {
    /// The callable that disposals are forwarded to.
    pub closed spec fn callable(&self) -> F {
        self.callable
    }

    /// The deleter that forwards to `callable`. It accepts the addresses
    /// that `callable` may be called with, and a disposal is one call of it.
    pub fn new(callable: F) -> (deleter: Self)
        ensures
            deleter.callable() == callable,
            forall|address: usize, origin: Origin| #[trigger]
                deleter.accepts(address, origin) == call_requires(callable, (address,)),
            forall|address: usize, after: Self| #[trigger]
                Self::disposes(deleter, address, after) == call_ensures(
                    callable,
                    (address,),
                    (),
                ),
    {
        FnDeleter { callable }
    }
}

impl<F: FnMut(usize)> Deleter for FnDeleter<F> {
    open spec fn accepts(&self, address: usize, origin: Origin) -> bool {
        call_requires(self.callable(), (address,))
    }

    open spec fn disposes(before: Self, address: usize, after: Self) -> bool {
        call_ensures(before.callable(), (address,), ())
    }

    fn delete<T: ?Sized>(&mut self, ptr: Pointer<'_, T>) {
        let address = ptr.address();
        core::mem::forget(ptr);
        (self.callable)(address);
    }
}

} // verus!
