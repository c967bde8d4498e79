//! Functions for safe transmutation to `bool`.
//!
//! Reading a byte as a boolean is well-defined only if the byte is 0 or 1,
//! so a boolean is *not* trivially transmutable: unlike the conversions
//! built on [`TriviallyTransmutable`](crate::trivial::TriviallyTransmutable),
//! the ones here inspect every byte and reject a buffer holding any other
//! value with [`Error::InvalidValue`].  The value check comes first; a
//! boundary guard is applied after it.  Booleans have single-byte size and
//! alignment, so no alignment check is needed in this module.

use vstd::prelude::*;

use vstd::slice::slice_index_get;

use crate::error::{Error, ErrorReason, GuardError};
use crate::guard::{Guard, PedanticGuard, PermissiveGuard};

verus! {

/// Whether the byte is the representation of a boolean value.
pub open spec fn is_bool_byte(b: u8) -> bool {
    b == 0 || b == 1
}

/// Whether every byte of the sequence represents a boolean value.
pub open spec fn all_bool_bytes(s: Seq<u8>) -> bool {
    forall|i: int| 0 <= i < s.len() ==> is_bool_byte(#[trigger] s[i])
}

/// The boolean each byte of a valid sequence stands for: 1 is `true` and 0
/// is `false`.
pub open spec fn bools_of_bytes(s: Seq<u8>) -> Seq<bool> {
    Seq::new(s.len(), |i: int| s[i] == 1)
}

/// Makes sure that the bytes represent a sequence of valid boolean values.
pub fn bytes_are_bool(v: &[u8]) -> (r: bool)
    ensures
        r == all_bool_bytes(v@),
{
    let n = v.len();
    let mut i: usize = 0;
    while i < n
        invariant
            i <= n,
            n == v@.len(),
            forall|j: int| 0 <= j < i ==> is_bool_byte(#[trigger] v@[j]),
        decreases n - i,
    {
        if !byte_is_bool(*slice_index_get(v, i)) {
            return false;
        }
        i = i + 1;
    }
    true
}

fn byte_is_bool(b: u8) -> (r: bool)
    ensures
        r == is_bool_byte(b),
{
    b == 0 || b == 1
}

/// Returns an error if any of the bytes does not make a valid `bool`.
fn check_bool<'a, T>(bytes: &'a [u8]) -> (r: Result<(), Error<'a, u8, T>>)
    ensures
        r is Ok <==> all_bool_bytes(bytes@),
        r matches Err(e) ==> e matches Error::InvalidValue,
{
    if bytes_are_bool(bytes) {
        Ok(())
    } else {
        Err(Error::InvalidValue)
    }
}

/// Turn bytes already known to be valid booleans into their values.
fn booleans_of(bytes: &[u8]) -> (r: Vec<bool>)
    ensures
        r@ == bools_of_bytes(bytes@),
{
    let n = bytes.len();
    let mut out: Vec<bool> = Vec::new();
    let mut i: usize = 0;
    while i < n
        invariant
            i <= n,
            n == bytes@.len(),
            out@.len() == i,
            forall|j: int| 0 <= j < i ==> #[trigger] out@[j] == (bytes@[j] == 1),
        decreases n - i,
    {
        out.push(*slice_index_get(bytes, i) == 1);
        i = i + 1;
    }
    proof {
        assert(out@ =~= bools_of_bytes(bytes@));
    }
    out
}

fn guarded_transmute_bool<'a, G: Guard>(bytes: &'a [u8]) -> (r: Result<
    Vec<bool>,
    Error<'a, u8, bool>,
>)
    ensures
        r is Ok <==> all_bool_bytes(bytes@) && G::accepts(bytes@.len() as nat, 1),
        r matches Ok(v) ==> v@ == bools_of_bytes(bytes@),
        !all_bool_bytes(bytes@) ==> (r matches Err(e) && e matches Error::InvalidValue),
        all_bool_bytes(bytes@) && !G::accepts(bytes@.len() as nat, 1) ==> (r matches Err(e)
            && e matches Error::Guard(g) && g == (GuardError {
            required: 1,
            actual: bytes@.len() as usize,
            reason: G::reject_reason(bytes@.len() as nat, 1),
        })),
{
    match check_bool::<bool>(bytes) {
        Ok(()) => {},
        Err(e) => {
            return Err(e);
        },
    }
    match G::check(bytes.len(), 1) {
        Ok(()) => {},
        Err(g) => {
            return Err(Error::Guard(g));
        },
    }
    Ok(booleans_of(bytes))
}

/// View a byte slice as a sequence of boolean values.
///
/// The resulting vector holds one boolean per byte and can be empty.
///
/// # Errors
///
/// An error is returned if any byte is neither 0 nor 1.
pub fn safe_transmute_bool_permissive<'a>(bytes: &'a [u8]) -> (r: Result<
    Vec<bool>,
    Error<'a, u8, bool>,
>)
    ensures
        r is Ok <==> all_bool_bytes(bytes@),
        r matches Ok(v) ==> v@ == bools_of_bytes(bytes@),
        r matches Err(e) ==> e matches Error::InvalidValue,
{
    guarded_transmute_bool::<PermissiveGuard>(bytes)
}

/// View a byte slice as a sequence of boolean values.
///
/// The resulting vector holds one boolean per byte and can be empty.
///
/// This is the older name of [`safe_transmute_bool_permissive`]; prefer
/// that one.
pub fn guarded_transmute_bool_permissive<'a>(bytes: &'a [u8]) -> (r: Result<
    Vec<bool>,
    Error<'a, u8, bool>,
>)
    ensures
        r is Ok <==> all_bool_bytes(bytes@),
        r matches Ok(v) ==> v@ == bools_of_bytes(bytes@),
        r matches Err(e) ==> e matches Error::InvalidValue,
{
    guarded_transmute_bool::<PermissiveGuard>(bytes)
}

/// View a byte slice as a sequence of boolean values.
///
/// The byte slice must have at least one byte.
///
/// # Errors
///
/// An error is returned if any byte is neither 0 nor 1, or if the slice is
/// empty.
pub fn safe_transmute_bool_pedantic<'a>(bytes: &'a [u8]) -> (r: Result<
    Vec<bool>,
    Error<'a, u8, bool>,
>)
    ensures
        r is Ok <==> all_bool_bytes(bytes@) && bytes@.len() >= 1,
        r matches Ok(v) ==> v@ == bools_of_bytes(bytes@),
        !all_bool_bytes(bytes@) ==> (r matches Err(e) && e matches Error::InvalidValue),
        all_bool_bytes(bytes@) && bytes@.len() == 0 ==> (r matches Err(e) && e matches
            Error::Guard(g) && g == (GuardError {
            required: 1,
            actual: 0,
            reason: ErrorReason::NotEnoughBytes,
        })),
{
    guarded_transmute_bool::<PedanticGuard>(bytes)
}

/// View a byte slice as a sequence of boolean values.
///
/// The byte slice must have at least one byte.
///
/// This is the older name of [`safe_transmute_bool_pedantic`]; prefer that
/// one.
pub fn guarded_transmute_bool_pedantic<'a>(bytes: &'a [u8]) -> (r: Result<
    Vec<bool>,
    Error<'a, u8, bool>,
>)
    ensures
        r is Ok <==> all_bool_bytes(bytes@) && bytes@.len() >= 1,
        r matches Ok(v) ==> v@ == bools_of_bytes(bytes@),
        !all_bool_bytes(bytes@) ==> (r matches Err(e) && e matches Error::InvalidValue),
        all_bool_bytes(bytes@) && bytes@.len() == 0 ==> (r matches Err(e) && e matches
            Error::Guard(g) && g == (GuardError {
            required: 1,
            actual: 0,
            reason: ErrorReason::NotEnoughBytes,
        })),
{
    safe_transmute_bool_pedantic(bytes)
}

/// Transform a byte vector into a vector of booleans.
///
/// The resulting vector holds one boolean per byte and can be empty.
///
/// # Errors
///
/// An error is returned if any byte is neither 0 nor 1.
pub fn safe_transmute_bool_vec_permissive(bytes: Vec<u8>) -> (r: Result<
    Vec<bool>,
    Error<'static, u8, bool>,
>)
    ensures
        r is Ok <==> all_bool_bytes(bytes@),
        r matches Ok(v) ==> v@ == bools_of_bytes(bytes@),
        r matches Err(e) ==> e matches Error::InvalidValue,
{
    match check_bool::<bool>(bytes.as_slice()) {
        Ok(()) => Ok(booleans_of(bytes.as_slice())),
        Err(_) => Err(Error::InvalidValue),
    }
}

/// Transform a byte vector into a vector of booleans.
///
/// The resulting vector holds one boolean per byte and can be empty.
///
/// This is the older name of [`safe_transmute_bool_vec_permissive`]; prefer
/// that one.
pub fn guarded_transmute_bool_vec_permissive(bytes: Vec<u8>) -> (r: Result<
    Vec<bool>,
    Error<'static, u8, bool>,
>)
    ensures
        r is Ok <==> all_bool_bytes(bytes@),
        r matches Ok(v) ==> v@ == bools_of_bytes(bytes@),
        r matches Err(e) ==> e matches Error::InvalidValue,
{
    safe_transmute_bool_vec_permissive(bytes)
}

/// Transform a byte vector into a vector of booleans.
///
/// The byte vector must have at least one byte.
///
/// # Errors
///
/// An error is returned if any byte is neither 0 nor 1, or if the vector is
/// empty.
pub fn safe_transmute_bool_vec_pedantic(bytes: Vec<u8>) -> (r: Result<
    Vec<bool>,
    Error<'static, u8, bool>,
>)
    ensures
        r is Ok <==> all_bool_bytes(bytes@) && bytes@.len() >= 1,
        r matches Ok(v) ==> v@ == bools_of_bytes(bytes@),
        !all_bool_bytes(bytes@) ==> (r matches Err(e) && e matches Error::InvalidValue),
        all_bool_bytes(bytes@) && bytes@.len() == 0 ==> (r matches Err(e) && e matches
            Error::Guard(g) && g == (GuardError {
            required: 1,
            actual: 0,
            reason: ErrorReason::NotEnoughBytes,
        })),
{
    match check_bool::<bool>(bytes.as_slice()) {
        Ok(()) => {},
        Err(_) => {
            return Err(Error::InvalidValue);
        },
    }
    match PedanticGuard::check(bytes.len(), 1) {
        Ok(()) => Ok(booleans_of(bytes.as_slice())),
        Err(g) => Err(Error::Guard(g)),
    }
}

/// Transform a byte vector into a vector of booleans.
///
/// The byte vector must have at least one byte.
///
/// This is the older name of [`safe_transmute_bool_vec_pedantic`]; prefer
/// that one.
pub fn guarded_transmute_bool_vec_pedantic(bytes: Vec<u8>) -> (r: Result<
    Vec<bool>,
    Error<'static, u8, bool>,
>)
    ensures
        r is Ok <==> all_bool_bytes(bytes@) && bytes@.len() >= 1,
        r matches Ok(v) ==> v@ == bools_of_bytes(bytes@),
        !all_bool_bytes(bytes@) ==> (r matches Err(e) && e matches Error::InvalidValue),
        all_bool_bytes(bytes@) && bytes@.len() == 0 ==> (r matches Err(e) && e matches
            Error::Guard(g) && g == (GuardError {
            required: 1,
            actual: 0,
            reason: ErrorReason::NotEnoughBytes,
        })),
{
    safe_transmute_bool_vec_pedantic(bytes)
}

} // verus!
