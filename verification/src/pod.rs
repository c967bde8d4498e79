//! Plain data object safe transmute.
//!
//! [`PodTransmutable`] is the older name for the capability that
//! [`TriviallyTransmutable`] expresses; it survives so that code written
//! against it keeps working.  Every trivially transmutable type is a plain
//! data object, and the two capabilities mean the same thing here, so the
//! implementation is a blanket one.

use vstd::prelude::*;

use crate::trivial::TriviallyTransmutable;

verus! {

/// Type that can be non-`unsafe`ly transmuted into.
///
/// A type `T` implementing this trait means that any arbitrary sequence of
/// bytes of length `T::spec_size()` is the representation of some value of
/// that type.  In most cases this is a *plain old data* class.
///
/// Prefer [`TriviallyTransmutable`], which carries the same meaning under
/// its current name.
pub trait PodTransmutable: TriviallyTransmutable {

}

impl<T: TriviallyTransmutable> PodTransmutable for T {

}

} // verus!
