//! Addresses of userspace memory with a defined in-memory representation,
//! for structures through which the kernel is handed a pointer.

use vstd::prelude::*;
use core::marker::PhantomData;

verus! {

/// Implemented by types that can represent readable userspace addresses.
pub trait Repr<T>: Sized {
    /// The representation of an address.
    spec fn spec_from_ptr(ptr: usize) -> Self;

    /// Converts the given address to the implementing type without losing
    /// anything the kernel needs to find the same address.
    fn from_ptr(ptr: usize) -> (r: Self)
        ensures
            r == Self::spec_from_ptr(ptr),
    ;
}

/// Implemented by types that can represent writable userspace addresses.
pub trait ReprMut<T>: Sized {
    /// The representation of an address.
    spec fn spec_from_mut_ptr(ptr: usize) -> Self;

    /// Converts the given address to the implementing type without losing
    /// anything the kernel needs to find the same address.
    fn from_mut_ptr(ptr: usize) -> (r: Self)
        ensures
            r == Self::spec_from_mut_ptr(ptr),
    ;
}

impl<T> Repr<T> for u64 {
    open spec fn spec_from_ptr(ptr: usize) -> Self {
        ptr as u64
    }

    fn from_ptr(ptr: usize) -> (r: Self) {
        ptr as u64
    }
}

impl<T> ReprMut<T> for u64 {
    open spec fn spec_from_mut_ptr(ptr: usize) -> Self {
        ptr as u64
    }

    fn from_mut_ptr(ptr: usize) -> (r: Self) {
        ptr as u64
    }
}

impl<T> Repr<T> for usize {
    open spec fn spec_from_ptr(ptr: usize) -> Self {
        ptr
    }

    fn from_ptr(ptr: usize) -> (r: Self) {
        ptr
    }
}

impl<T> ReprMut<T> for usize {
    open spec fn spec_from_mut_ptr(ptr: usize) -> Self {
        ptr
    }

    fn from_mut_ptr(ptr: usize) -> (r: Self) {
        ptr
    }
}

/// The address of readable userspace memory that holds a `T`, represented
/// as an `R`.
pub struct UserPtr<'a, T, R: Copy + Repr<T> = usize> {
    v: R,
    _phantom: PhantomData<&'a T>,
}

impl<'a, T, R: Copy + Repr<T>> UserPtr<'a, T, R> {
    /// The in-memory representation of the address.
    pub closed spec fn spec_repr(&self) -> R {
        self.v
    }

    /// Creates a representation of the given address, which must stay
    /// valid for the lifetime of the result.
    pub fn from_ptr(ptr: usize) -> (p: Self)
        ensures
            p.spec_repr() == R::spec_from_ptr(ptr),
    {
        UserPtr { v: R::from_ptr(ptr), _phantom: PhantomData }
    }

    #[verifier::when_used_as_spec(spec_repr)]
    pub fn repr(&self) -> (r: R)
        ensures
            r == self.spec_repr(),
    {
        self.v
    }
}

/// The address of writable userspace memory that holds a `T`, represented
/// as an `R`.
pub struct UserMut<'a, T, R: Copy + ReprMut<T> = usize> {
    v: R,
    _phantom: PhantomData<&'a mut T>,
}

impl<'a, T, R: Copy + ReprMut<T>> UserMut<'a, T, R> {
    /// The in-memory representation of the address.
    pub closed spec fn spec_repr(&self) -> R {
        self.v
    }

    /// Creates a representation of the given address, which must stay
    /// valid for the lifetime of the result.
    pub fn from_ptr(ptr: usize) -> (p: Self)
        ensures
            p.spec_repr() == R::spec_from_mut_ptr(ptr),
    {
        UserMut { v: R::from_mut_ptr(ptr), _phantom: PhantomData }
    }

    #[verifier::when_used_as_spec(spec_repr)]
    pub fn repr(&self) -> (r: R)
        ensures
            r == self.spec_repr(),
    {
        self.v
    }
}

/// Shows that the commonly needed representations of an address can be
/// had: as the address itself and as a 64-bit number, for reading and for
/// writing, each standing for the address it was made from.
pub fn ensure_reprs_possible(addr: usize) -> (r: (usize, u64, usize, u64))
    ensures
        r.0 == addr,
        r.1 == addr,
        r.2 == addr,
        r.3 == addr,
{
    let a: UserPtr<u8> = UserPtr::from_ptr(addr);
    let b: UserPtr<u8, u64> = UserPtr::from_ptr(addr);
    let c: UserMut<u8> = UserMut::from_ptr(addr);
    let d: UserMut<u8, u64> = UserMut::from_ptr(addr);
    (a.repr(), b.repr(), c.repr(), d.repr())
}

} // verus!
