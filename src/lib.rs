//! Identity keys for referencing values.
//!
//! `ByAddr<T>` wraps a value that dereferences to a target and compares,
//! orders and hashes by the address of that target instead of by its value.
//! The address is taken once, when the wrapper is built, and kept as a plain
//! integer key, so that a wrapper around an owning handle and a wrapper around
//! a bare reference to the same target carry the same key.
//!
//! The key names the target only where the target lives outside the wrapped
//! value: references, `Box`, `Rc`, `Arc`, `String`, `Vec` and other handles
//! to memory elsewhere. A value whose target is stored inside it
//! (`ManuallyDrop<X>`, `AssertUnwindSafe<X>`) is moved into the wrapper after
//! its address is taken, so its key is that of a place it no longer occupies.
//!
//! The wrapper gives no `AsRef` or `AsMut` of its own: Verus does not accept
//! calls through those traits. `get` hands out the wrapped value, whose
//! conversions are then at hand.
//!
//! The laws of equality, order and hashing are proved over that stored key.
//! Verus models a reference by the value behind it, not by where it lives, so
//! that the key is the target's address rests on `address_of` alone; what is
//! proved of it is only that it is never zero.
use core::cmp::Ordering;
use core::ops::{Deref, DerefMut};
use vstd::prelude::*;

pub mod laws;

verus! {

/// Relies on `core::ptr::from_ref` and the pointer's `addr`: the numeric
/// address of the value that `r` refers to, with any pointer metadata dropped.
/// A reference is never null, so the address is never zero.
#[verifier::external_body]
fn address_of<X: ?Sized>(r: &X) -> (a: usize)
    ensures
        a != 0,
{
    core::ptr::from_ref(r).addr()
}

/// Relies on `usize`'s `Hash::hash`: feeds the integer to the hasher.
pub assume_specification<H: core::hash::Hasher>[ <usize as core::hash::Hash>::hash::<H> ](
    data: &usize,
    state: &mut H,
);

/// A value that dereferences to a target, compared by the address its target
/// had when the wrapper was built.
///
/// Two wrappers are equal exactly when their identity keys are equal; the
/// wrapped values themselves never take part in a comparison. For a handle
/// whose target lives outside it the key is the target's address for as long
/// as the wrapper lives.
pub struct ByAddr<T: Deref> {
    pointer: T,
    key: Address,
}

/// The address of a live target, which is never null.
#[derive(Clone, Copy)]
struct Address {
    value: usize,
}

impl Address {
    #[verifier::type_invariant]
    spec fn is_not_null(self) -> bool {
        self.value != 0
    }

    fn of<X: ?Sized>(r: &X) -> (a: Address)
        ensures
            a.value != 0,
    {
        Address { value: address_of(r) }
    }

    fn get(&self) -> (r: usize)
        ensures
            r == self.value,
            r != 0,
    {
        proof {
            use_type_invariant(self);
        }
        self.value
    }
}

/// The order of two identity keys as raw address values.
pub open spec fn key_order(a: usize, b: usize) -> Ordering {
    if a < b {
        Ordering::Less
    } else if a == b {
        Ordering::Equal
    } else {
        Ordering::Greater
    }
}

/// Two wrappers, of any referencing types, name the same target.
pub open spec fn same_key<A: Deref, B: Deref>(a: &ByAddr<A>, b: &ByAddr<B>) -> bool {
    a.key() == b.key()
}

impl<T: Deref> ByAddr<T> {
    /// The identity key: the address that the target had when the wrapper
    /// was built, which a handle to memory elsewhere keeps.
    pub closed spec fn key(&self) -> usize {
        self.key.value
    }

    /// The wrapped referencing value.
    pub closed spec fn inner(&self) -> T {
        self.pointer
    }

    /// Wraps `pointer`, keyed by the address of what it dereferences to.
    pub fn new(pointer: T) -> (r: Self)
        ensures
            r.inner() == pointer,
            r.key() != 0,
    {
        let key = Address::of(pointer.deref());
        ByAddr { pointer, key }
    }

    /// The identity key.
    pub fn addr(&self) -> (r: usize)
        ensures
            r == self.key(),
            r != 0,
    {
        self.key.get()
    }

    /// The wrapped referencing value.
    pub fn get(&self) -> (r: &T)
        ensures
            *r == self.inner(),
    {
        &self.pointer
    }

    /// Gives the wrapped referencing value back.
    pub fn into_inner(self) -> (r: T)
        ensures
            r == self.inner(),
    {
        self.pointer
    }

    /// Shared access to the target: what the wrapped value dereferences to.
    pub fn target(&self) -> (r: &T::Target)
        ensures
            call_ensures(T::deref, (&self.inner(),), r),
    {
        self.pointer.deref()
    }

    /// Exclusive access to the target. The target stays where it is while it
    /// is changed through the result, so the identity key is kept.
    pub fn target_mut(&mut self) -> (r: &mut T::Target)
        where T: DerefMut,
        ensures
            final(self).key() == old(self).key(),
    {
        self.pointer.deref_mut()
    }

    /// A wrapper around a bare reference to `r`'s target, for looking up
    /// entries keyed by wrappers of owning handles to that target.
    pub fn from_ref(r: &T) -> (w: ByAddr<&T::Target>)
        ensures
            call_ensures(T::deref, (r,), w.inner()),
            w.key() != 0,
    {
        ByAddr::new(r.deref())
    }

    /// This wrapper seen as a wrapper around a bare reference to its target:
    /// the key is carried over, not taken again.
    pub fn borrowed(&self) -> (r: ByAddr<&T::Target>)
        ensures
            same_key(&r, self),
            call_ensures(T::deref, (&self.inner(),), r.inner()),
    {
        ByAddr { pointer: self.pointer.deref(), key: self.key }
    }

    /// Whether `other`, whatever it wraps, names the same target.
    pub fn same_target<U: Deref>(&self, other: &ByAddr<U>) -> (r: bool)
        ensures
            r == same_key(self, other),
    {
        self.key.value == other.key.value
    }

    /// Compares the two targets' addresses as raw address values.
    pub fn cmp(&self, other: &Self) -> (r: Ordering)
        ensures
            r == key_order(self.key(), other.key()),
    {
        if self.key.value < other.key.value {
            Ordering::Less
        } else if self.key.value == other.key.value {
            Ordering::Equal
        } else {
            Ordering::Greater
        }
    }
}

impl<T: Deref> PartialEq for ByAddr<T> {
    fn eq(&self, other: &Self) -> (r: bool) {
        self.key.value == other.key.value
    }
}

impl<T: Deref> vstd::std_specs::cmp::PartialEqSpecImpl for ByAddr<T> {
    open spec fn obeys_eq_spec() -> bool {
        true
    }

    open spec fn eq_spec(&self, other: &Self) -> bool {
        same_key(self, other)
    }
}

impl<T: Deref> Eq for ByAddr<T> {
}

impl<T: Deref> PartialOrd for ByAddr<T> {
    fn partial_cmp(&self, other: &Self) -> (r: Option<Ordering>) {
        Some(self.cmp(other))
    }
}

impl<T: Deref> vstd::std_specs::cmp::PartialOrdSpecImpl for ByAddr<T> {
    open spec fn obeys_partial_cmp_spec() -> bool {
        true
    }

    open spec fn partial_cmp_spec(&self, other: &Self) -> Option<Ordering> {
        Some(key_order(self.key(), other.key()))
    }
}

impl<T: Deref> core::hash::Hash for ByAddr<T> {
    fn hash<H: core::hash::Hasher>(&self, state: &mut H) {
        self.addr().hash(state);
    }
}

impl<T: Deref> Deref for ByAddr<T> {
    type Target = T::Target;

    fn deref(&self) -> (r: &T::Target)
        ensures
            call_ensures(T::deref, (&self.inner(),), r),
    {
        self.target()
    }
}

impl<T: DerefMut> DerefMut for ByAddr<T> {
    fn deref_mut(&mut self) -> (r: &mut T::Target)
        ensures
            final(self).key() == old(self).key(),
    {
        self.target_mut()
    }
}

impl<T: Deref> From<T> for ByAddr<T> {
    fn from(pointer: T) -> (r: Self)
        ensures
            r.inner() == pointer,
            r.key() != 0,
    {
        ByAddr::new(pointer)
    }
}

impl<T: Deref> vstd::std_specs::convert::FromSpecImpl<T> for ByAddr<T> {
    /// The key is an address chosen when the program runs, so no spec
    /// function of the wrapped value alone gives the result.
    open spec fn obeys_from_spec() -> bool {
        false
    }

    open spec fn from_spec(v: T) -> Self {
        choose|r: Self| r.inner() == v
    }
}

impl<T: Deref + Clone> Clone for ByAddr<T> {
    /// Clones the wrapped value and keys the copy by the address of the
    /// copy's own target: a cloned `Box` is a new target, a cloned `Rc` the
    /// same one.
    fn clone(&self) -> (r: Self)
        ensures
            r.key() != 0,
    {
        ByAddr::new(self.pointer.clone())
    }
}

impl<T: Deref + Copy> Copy for ByAddr<T> {
}

impl<T: Deref + Default> Default for ByAddr<T> {
    fn default() -> (r: Self)
        ensures
            r.key() != 0,
    {
        ByAddr::new(T::default())
    }
}

impl<T: Deref> core::borrow::Borrow<usize> for ByAddr<T> {
    /// The identity key, so that a set of wrappers can be searched by key.
    fn borrow(&self) -> &usize {
        &self.key.value
    }
}

} // verus!
