//! Detectable and recoverable-from transmutation precondition errors.
//!
//! The error taxonomy is closed: a boundary violation ([`GuardError`]), an
//! alignment violation ([`UnalignedError`]), an owned-buffer layout mismatch
//! ([`IncompatibleVecTargetError`]), and an invalid bit pattern
//! ([`Error::InvalidValue`]).  The alignment and vector errors carry the
//! rejected data, so recovering by copying needs nothing besides the error
//! value itself.

use vstd::prelude::*;

use core::marker::PhantomData;

use crate::trivial::{
    lemma_seq_to_bytes_len, leading_count, read_values, seq_to_bytes, write_values,
    TriviallyTransmutable,
};

verus! {

/// How the type's size compares to the received byte count and the
/// transmutation function's characteristic.
#[derive(Clone, Copy, Debug, PartialEq, Eq, Hash, Structural)]
pub enum ErrorReason {
    /// Too few bytes to fill even one instance of a type.
    NotEnoughBytes,
    /// Too many bytes to fill a type.
    ///
    /// Currently unused.
    TooManyBytes,
    /// The byte amount received is not the same as the type's size.
    InexactByteCount,
}

impl ErrorReason {
    /// Retrieve a human readable description of the reason.
    pub fn description(self) -> (r: &'static str)
        ensures
            self == ErrorReason::NotEnoughBytes ==> r@ == "Not enough bytes to fill type"@,
            self == ErrorReason::TooManyBytes ==> r@ == "Too many bytes for type"@,
            self == ErrorReason::InexactByteCount ==> r@ == "Not exactly the amount of bytes for type"@,
    {
        match self {
            ErrorReason::NotEnoughBytes => "Not enough bytes to fill type",
            ErrorReason::TooManyBytes => "Too many bytes for type",
            ErrorReason::InexactByteCount => "Not exactly the amount of bytes for type",
        }
    }
}

/// A slice boundary guard error, usually created by a
/// [`Guard`](crate::guard::Guard).
///
/// Both counts are in bytes: `required` is the target type's size and
/// `actual` is the length of the rejected buffer.
#[derive(Clone, Copy, Debug, PartialEq, Eq, Hash, Structural)]
pub struct GuardError {
    /// The required amount of bytes for transmutation.
    pub required: usize,
    /// The actual amount of bytes.
    pub actual: usize,
    /// Why this `required`/`actual` combination is an error.
    pub reason: ErrorReason,
}

impl GuardError {
    /// Retrieve a human readable description of the error.
    pub fn description(&self) -> (r: &'static str)
        ensures
            self.reason == ErrorReason::NotEnoughBytes ==> r@ == "Not enough bytes to fill type"@,
            self.reason == ErrorReason::TooManyBytes ==> r@ == "Too many bytes for type"@,
            self.reason == ErrorReason::InexactByteCount ==> r@ == "Not exactly the amount of bytes for type"@,
    {
        self.reason.description()
    }
}

/// Unaligned memory access error.
///
/// Returned when the given data slice sits at an address that is not
/// properly aligned for the target type `T`.  It would have been properly
/// aligned if `offset` bytes had been discarded from the front of the slice.
#[derive(Debug, PartialEq, Eq, Hash)]
pub struct UnalignedError<'a, S, T> {
    /// The amount of bytes to discard at the front for the attempted
    /// transmutation to be successful.
    pub offset: usize,
    /// A slice of the original source data.
    pub source: &'a [S],
    /// Marks the target element type the access was attempted for.
    pub phantom: PhantomData<T>,
}

impl<'a, S, T> UnalignedError<'a, S, T> {
    /// Wrap the given discard count and rejected source data.
    pub fn new(offset: usize, source: &'a [S]) -> (r: Self)
        ensures
            r.offset == offset,
            r.source == source,
    {
        UnalignedError { offset, source, phantom: PhantomData }
    }

    /// Retrieve a human readable description of the error.
    pub fn description(&self) -> (r: &'static str)
        ensures
            r@ == "data is unaligned"@,
    {
        "data is unaligned"
    }
}

impl<'a, S: TriviallyTransmutable, T: TriviallyTransmutable> UnalignedError<'a, S, T> {
    /// Create a copy of the source data, transmuted into a vector.  The new
    /// vector is a fresh, correctly aligned allocation, so this recovery
    /// never fails: it holds as many whole values of `T` as the source's
    /// bytes provide, rounded down.
    pub fn copy(&self) -> (r: Vec<T>)
        ensures
            r@.len() == self.source@.len() * S::spec_size() / T::spec_size(),
            seq_to_bytes(r@) == seq_to_bytes(self.source@).take(
                (r@.len() * T::spec_size()) as int,
            ),
    {
        let bytes = write_values(self.source);
        proof {
            lemma_seq_to_bytes_len::<S>(self.source@);
        }
        let count = leading_count::<T>(bytes.len());
        read_values(bytes.as_slice(), count)
    }
}

/// Incompatible vector transmutation error.
///
/// Returned when the element type `S` does not allow a safe vector
/// transmutation to the target element type `T`, because the two types
/// differ in size or in minimum memory alignment.  The error owns the
/// original vector, so the rejected data survives under its original
/// element type and recovery needs no second copy of the input.
#[derive(Debug, PartialEq, Eq, Hash)]
pub struct IncompatibleVecTargetError<S, T> {
    /// The original vector.
    pub vec: Vec<S>,
    /// Marks the target element type the conversion was attempted for.
    pub target: PhantomData<T>,
}

impl<S, T> IncompatibleVecTargetError<S, T> {
    /// Wrap the given rejected vector.
    pub fn new(vec: Vec<S>) -> (r: Self)
        ensures
            r.vec == vec,
    {
        IncompatibleVecTargetError { vec, target: PhantomData }
    }

    /// Retrieve a human readable description of the error.
    pub fn description(&self) -> (r: &'static str)
        ensures
            r@ == "incompatible target type"@,
    {
        "incompatible target type"
    }
}

impl<S: TriviallyTransmutable, T: TriviallyTransmutable> IncompatibleVecTargetError<S, T> {
    /// Create a copy of the data, transmuted into a new vector.  The new
    /// vector is a fresh, correctly aligned allocation, so this recovery
    /// never fails: it holds as many whole values of `T` as the original
    /// vector's bytes provide, rounded down.
    pub fn copy(&self) -> (r: Vec<T>)
        ensures
            r@.len() == self.vec@.len() * S::spec_size() / T::spec_size(),
            seq_to_bytes(r@) == seq_to_bytes(self.vec@).take((r@.len() * T::spec_size()) as int),
    {
        let bytes = write_values(self.vec.as_slice());
        proof {
            lemma_seq_to_bytes_len::<S>(self.vec@);
        }
        let count = leading_count::<T>(bytes.len());
        read_values(bytes.as_slice(), count)
    }
}

/// A transmutation error. This type describes possible errors originating
/// from operations in this crate. The two type parameters represent the
/// source element type and the target element type respectively.
#[derive(Debug, PartialEq, Eq, Hash)]
pub enum Error<'a, S, T> {
    /// The data does not respect the target type's boundaries.
    Guard(GuardError),
    /// The given data slice is not properly aligned for the target type.
    Unaligned(UnalignedError<'a, S, T>),
    /// The data vector's element type does not have the same size and
    /// minimum alignment as the target type.
    IncompatibleVecTarget(IncompatibleVecTargetError<S, T>),
    /// The data contains an invalid value for the target type.
    InvalidValue,
}

impl<'a, S, T> Error<'a, S, T> {
    /// Retrieve a human readable description of the error.
    pub fn description(&self) -> (r: &'static str)
        ensures
            self matches Error::Guard(e) && e.reason == ErrorReason::NotEnoughBytes
                ==> r@ == "Not enough bytes to fill type"@,
            self matches Error::Guard(e) && e.reason == ErrorReason::TooManyBytes
                ==> r@ == "Too many bytes for type"@,
            self matches Error::Guard(e) && e.reason == ErrorReason::InexactByteCount
                ==> r@ == "Not exactly the amount of bytes for type"@,
            self matches Error::Unaligned(_) ==> r@ == "data is unaligned"@,
            self matches Error::IncompatibleVecTarget(_) ==> r@ == "incompatible target type"@,
            self matches Error::InvalidValue ==> r@ == "invalid target value"@,
    {
        match self {
            Error::Guard(e) => e.description(),
            Error::Unaligned(e) => e.description(),
            Error::IncompatibleVecTarget(e) => e.description(),
            Error::InvalidValue => "invalid target value",
        }
    }
}

impl<'a, S, T> From<GuardError> for Error<'a, S, T> {
    fn from(o: GuardError) -> Self {
        Error::Guard(o)
    }
}

impl<'a, S, T> vstd::std_specs::convert::FromSpecImpl<GuardError> for Error<'a, S, T> {
    open spec fn obeys_from_spec() -> bool {
        true
    }

    open spec fn from_spec(o: GuardError) -> Self {
        Error::Guard(o)
    }
}

impl<'a, S, T> From<UnalignedError<'a, S, T>> for Error<'a, S, T> {
    fn from(o: UnalignedError<'a, S, T>) -> Self {
        Error::Unaligned(o)
    }
}

impl<'a, S, T> vstd::std_specs::convert::FromSpecImpl<UnalignedError<'a, S, T>> for Error<'a, S, T> {
    open spec fn obeys_from_spec() -> bool {
        true
    }

    open spec fn from_spec(o: UnalignedError<'a, S, T>) -> Self {
        Error::Unaligned(o)
    }
}

impl<'a, S, T> From<IncompatibleVecTargetError<S, T>> for Error<'a, S, T> {
    fn from(o: IncompatibleVecTargetError<S, T>) -> Self {
        Error::IncompatibleVecTarget(o)
    }
}

impl<'a, S, T> vstd::std_specs::convert::FromSpecImpl<IncompatibleVecTargetError<S, T>> for Error<'a, S, T> {
    open spec fn obeys_from_spec() -> bool {
        true
    }

    open spec fn from_spec(o: IncompatibleVecTargetError<S, T>) -> Self {
        Error::IncompatibleVecTarget(o)
    }
}

} // verus!
