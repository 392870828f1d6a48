//! Static type-to-value maps over tuple structs.
//!
//! An aggregate (a tuple struct) with pairwise-distinct field types can hand
//! out a reference to one of its fields keyed only by the field's static type:
//! each field gets one implementation of [`Get`] (and optionally [`GetMut`]),
//! and the compiler resolves the right slot at the call site.  No runtime type
//! tag and no dynamic lookup is involved.
//!
//! The implementations themselves are synthesized by a code generator from the
//! declared field types of the aggregate; the generator, the shape of the code
//! it emits, and the resolution semantics of the emitted implementations live
//! in the other modules of this crate.

use vstd::prelude::*;

pub mod frontend;
pub mod generator;
pub mod model;
pub mod render;
pub mod resolution;

verus! {

/// Capability to fetch the field of static type `T` from an aggregate.
///
/// An implementation binds `T` to one storage slot of the implementing
/// aggregate; `get` performs nothing beyond projecting that slot.
pub trait Get<T> {
    /// The value currently stored in the `T`-typed slot.  Left unspecified
    /// unless an implementation overrides it; the generated accessors are
    /// plain slot projections, so an implementation's override is simply its
    /// slot's value.
    open spec fn spec_get(&self) -> T {
        vstd::pervasive::arbitrary()
    }

    /// Returns a reference to the `T`-typed slot.
    fn get(&self) -> (r: &T)
        ensures
            *r == self.spec_get(),
    ;
}

/// Capability to fetch the field of static type `T` from an aggregate
/// through a mutable reference.
pub trait GetMut<T> where Self: core::marker::Sized {
    /// The value currently stored in the `T`-typed slot.  Left unspecified
    /// unless an implementation overrides it.
    open spec fn spec_get_mut(&self) -> T {
        vstd::pervasive::arbitrary()
    }

    /// The aggregate with the `T`-typed slot replaced by `v` and every other
    /// slot unchanged.  Left unspecified unless an implementation overrides
    /// it.
    open spec fn spec_with(&self, v: T) -> Self {
        vstd::pervasive::arbitrary()
    }

    /// Returns a mutable reference to the `T`-typed slot; writes through it
    /// land in that slot and nowhere else.
    fn get_mut(&mut self) -> (r: &mut T)
        ensures
            *r == old(self).spec_get_mut(),
            *final(self) == old(self).spec_with(*final(r)),
    ;
}

/// Fetches the field of type `T` from `c` by its static type alone.
///
/// Purely a convenience over [`Get`]: callers write `fetch::<T, _>(&c)`
/// instead of the fully qualified `Get::<T>::get(&c)`.
pub fn fetch<T, C: Get<T>>(c: &C) -> (r: &T)
    ensures
        *r == c.spec_get(),
{
    c.get()
}

/// Mutably fetches the field of type `T` from `c` by its static type alone.
///
/// Purely a convenience over [`GetMut`].
pub fn fetch_mut<T, C: GetMut<T>>(c: &mut C) -> (r: &mut T)
    ensures
        *r == old(c).spec_get_mut(),
        *final(c) == old(c).spec_with(*final(r)),
{
    c.get_mut()
}

} // verus!
