//! The `guard` module exposes an API for memory boundary checking.
//!
//! A guard is a policy that decides, given a buffer length and an element
//! size (both in bytes), whether a transmutation request is acceptable.
//! Different guard types implement different checking strategies: for
//! example, [`PedanticGuard`] requires the buffer to have space for at least
//! one value and no extraneous bytes at the end, while [`PermissiveGuard`]
//! accepts any buffer at all.
//!
//! Each policy is a pure function of the two sizes.  Zero-sized element
//! types are handled explicitly, never by dividing by the element size:
//! the permissive, single-or-many and all-or-nothing policies treat "at
//! least one element" and "a whole number of elements" as trivially true
//! when elements take no space, while the pedantic policy keeps only the
//! empty buffer and the single-value policy only a buffer of matching
//! (zero) length.
//!
//! Regardless of the chosen strategy, guarded transmutation functions
//! always ensure that no out of bounds access is attempted, usually by
//! restricting the output to spatially safe portions of the input.

use vstd::prelude::*;

use crate::error::{ErrorReason, GuardError};

verus! {

/// The trait describes types which define boundary checking strategies.
/// See the [module-level documentation](self) for more details.
///
/// A guard's behaviour is fully determined by its two spec functions:
/// [`check`](Guard::check) succeeds exactly on the lengths that
/// [`accepts`](Guard::accepts) allows, and a rejection carries the element
/// size, the buffer length, and the reason given by
/// [`reject_reason`](Guard::reject_reason).
pub trait Guard {
    /// Whether a buffer of `len` bytes is acceptable for elements of
    /// `size` bytes under this policy.
    spec fn accepts(len: nat, size: nat) -> bool;

    /// Why a buffer of `len` bytes is rejected for elements of `size`
    /// bytes; meaningful only when `accepts(len, size)` is false.
    spec fn reject_reason(len: nat, size: nat) -> ErrorReason;

    /// Check a buffer length against a particular element size.
    ///
    /// # Errors
    ///
    /// If the length does not comply with this guard, an error which
    /// specifies the incompatibility is returned.
    fn check(len: usize, size: usize) -> (r: Result<(), GuardError>)
        ensures
            r is Ok <==> Self::accepts(len as nat, size as nat),
            r matches Err(e) ==> e == (GuardError {
                required: size,
                actual: len,
                reason: Self::reject_reason(len as nat, size as nat),
            }),
    ;
}

/// Single value guard: The buffer must have exactly enough bytes to fill a
/// single instance of a type.
pub struct SingleValueGuard;

impl Guard for SingleValueGuard {
    open spec fn accepts(len: nat, size: nat) -> bool {
        len == size
    }

    open spec fn reject_reason(len: nat, size: nat) -> ErrorReason {
        ErrorReason::InexactByteCount
    }

    fn check(len: usize, size: usize) -> (r: Result<(), GuardError>) {
        if len != size {
            Err(GuardError { required: size, actual: len, reason: ErrorReason::InexactByteCount })
        } else {
            Ok(())
        }
    }
}

/// Pedantic guard: The buffer must have at least enough bytes to fill a
/// single instance of a type, and should not have extraneous data.  For a
/// zero-sized element type every nonzero length counts as extraneous data,
/// so only the empty buffer passes.
pub struct PedanticGuard;

impl Guard for PedanticGuard {
    open spec fn accepts(len: nat, size: nat) -> bool {
        if size == 0 {
            len == 0
        } else {
            len >= size && len % size == 0
        }
    }

    open spec fn reject_reason(len: nat, size: nat) -> ErrorReason {
        if len < size {
            ErrorReason::NotEnoughBytes
        } else {
            ErrorReason::InexactByteCount
        }
    }

    fn check(len: usize, size: usize) -> (r: Result<(), GuardError>) {
        if size == 0 {
            if len == 0 {
                Ok(())
            } else {
                Err(GuardError {
                    required: size,
                    actual: len,
                    reason: ErrorReason::InexactByteCount,
                })
            }
        } else if len < size {
            Err(GuardError { required: size, actual: len, reason: ErrorReason::NotEnoughBytes })
        } else if len % size != 0 {
            Err(GuardError { required: size, actual: len, reason: ErrorReason::InexactByteCount })
        } else {
            Ok(())
        }
    }
}

/// An all-or-nothing guard: The buffer should not have extraneous data, but
/// can be empty, unlike [`PedanticGuard`].
pub struct AllOrNothingGuard;

impl Guard for AllOrNothingGuard {
    open spec fn accepts(len: nat, size: nat) -> bool {
        size == 0 || len % size == 0
    }

    open spec fn reject_reason(len: nat, size: nat) -> ErrorReason {
        ErrorReason::InexactByteCount
    }

    fn check(len: usize, size: usize) -> (r: Result<(), GuardError>) {
        if size == 0 {
            Ok(())
        } else if len % size != 0 {
            Err(GuardError { required: size, actual: len, reason: ErrorReason::InexactByteCount })
        } else {
            Ok(())
        }
    }
}

/// A single-or-many guard: The buffer must have at least enough bytes to
/// fill a single instance of a type, and extraneous data is ignored.
pub struct SingleManyGuard;

impl Guard for SingleManyGuard {
    open spec fn accepts(len: nat, size: nat) -> bool {
        len >= size
    }

    open spec fn reject_reason(len: nat, size: nat) -> ErrorReason {
        ErrorReason::NotEnoughBytes
    }

    fn check(len: usize, size: usize) -> (r: Result<(), GuardError>) {
        if len < size {
            Err(GuardError { required: size, actual: len, reason: ErrorReason::NotEnoughBytes })
        } else {
            Ok(())
        }
    }
}

/// Permissive guard: The resulting buffer would have as many instances of a
/// type as will fit, rounded down. Therefore, this guard never yields an
/// error.
pub struct PermissiveGuard;

impl Guard for PermissiveGuard {
    open spec fn accepts(len: nat, size: nat) -> bool {
        true
    }

    open spec fn reject_reason(len: nat, size: nat) -> ErrorReason {
        ErrorReason::InexactByteCount
    }

    fn check(len: usize, size: usize) -> (r: Result<(), GuardError>) {
        Ok(())
    }
}

/// Law: the permissive guard accepts every buffer length for every element
/// size; it never fails.
pub proof fn lemma_permissive_guard_never_fails(len: nat, size: nat)
    ensures
        PermissiveGuard::accepts(len, size),
{
}

/// Law: the single value guard rejects exactly the buffer lengths
/// different from the element size, always because the byte count is
/// inexact.
pub proof fn lemma_single_value_guard_characterisation(len: nat, size: nat)
    ensures
        !SingleValueGuard::accepts(len, size) <==> len != size,
        SingleValueGuard::reject_reason(len, size) == ErrorReason::InexactByteCount,
{
}

/// Law: for a positive element size, the pedantic guard rejects a buffer
/// for lack of bytes exactly when it is shorter than one element, and for an
/// inexact byte count exactly when it is long enough but not a whole number
/// of elements; it accepts everything else.
pub proof fn lemma_pedantic_guard_characterisation(len: nat, size: nat)
    requires
        size > 0,
    ensures
        !PedanticGuard::accepts(len, size) && PedanticGuard::reject_reason(len, size)
            == ErrorReason::NotEnoughBytes <==> len < size,
        !PedanticGuard::accepts(len, size) && PedanticGuard::reject_reason(len, size)
            == ErrorReason::InexactByteCount <==> len >= size && len % size != 0,
        PedanticGuard::accepts(len, size) <==> len >= size && len % size == 0,
{
}

} // verus!
