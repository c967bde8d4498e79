//! Primitives for object and array conversion, unaware of placement.
//!
//! The functions in this module check buffer boundaries and nothing else:
//! they never ask where the data lives, so they never report an alignment
//! error.  The placement-aware functions at the crate root add the
//! alignment check on top of these.

use vstd::prelude::*;

use crate::error::{Error, ErrorReason};
use crate::guard::{Guard, SingleManyGuard, SingleValueGuard};
use crate::trivial::{leading_count, read_one, read_values, seq_to_bytes, TriviallyTransmutable};

verus! {

/// Convert a byte slice into a single instance of a trivially transmutable
/// type.
///
/// The byte slice must have at least enough bytes to fill a single instance
/// of the type; extraneous data is ignored.
///
/// # Errors
///
/// An error is returned if the slice does not have enough bytes for a
/// single value `T`.
pub fn from_bytes<'a, T: TriviallyTransmutable>(bytes: &'a [u8]) -> (r: Result<
    T,
    Error<'a, u8, T>,
>)
    ensures
        r is Ok <==> bytes@.len() >= T::spec_size(),
        r matches Ok(v) ==> v.spec_to_bytes() == bytes@.take(T::spec_size() as int),
        r matches Err(e) ==> e matches Error::Guard(g) && g.required == T::spec_size()
            && g.actual == bytes@.len() && g.reason == ErrorReason::NotEnoughBytes,
{
    let size = T::size();
    match SingleManyGuard::check(bytes.len(), size) {
        Ok(()) => Ok(read_one(bytes)),
        Err(g) => Err(Error::Guard(g)),
    }
}

/// Convert a byte slice into a single instance of a trivially transmutable
/// type.
///
/// The byte slice must have exactly the expected number of bytes to fill a
/// single instance of the type, without trailing space.
///
/// # Errors
///
/// An error is returned if the slice's length is not equal to the size of a
/// single value `T`.
pub fn from_bytes_pedantic<'a, T: TriviallyTransmutable>(bytes: &'a [u8]) -> (r: Result<
    T,
    Error<'a, u8, T>,
>)
    ensures
        r is Ok <==> bytes@.len() == T::spec_size(),
        r matches Ok(v) ==> v.spec_to_bytes() == bytes@,
        r matches Err(e) ==> e matches Error::Guard(g) && g.required == T::spec_size()
            && g.actual == bytes@.len() && g.reason == ErrorReason::InexactByteCount,
{
    let size = T::size();
    match SingleValueGuard::check(bytes.len(), size) {
        Ok(()) => {
            let v = read_one::<T>(bytes);
            proof {
                assert(bytes@.take(T::spec_size() as int) =~= bytes@);
            }
            Ok(v)
        },
        Err(g) => Err(Error::Guard(g)),
    }
}

/// View a byte slice as a sequence of values of an arbitrary trivially
/// transmutable type.
///
/// The required byte length of the slice depends on the chosen boundary
/// guard; the produced values are read from as many whole size-of-`T`
/// chunks as the slice holds, rounded down.
///
/// # Errors
///
/// An error is returned if the slice's length does not comply with the
/// boundary guard `G`.
pub fn guarded_transmute_many<'a, T: TriviallyTransmutable, G: Guard>(bytes: &'a [u8]) -> (r:
    Result<Vec<T>, Error<'a, u8, T>>)
    ensures
        r is Ok <==> G::accepts(bytes@.len() as nat, T::spec_size()),
        r matches Ok(v) ==> v@.len() == bytes@.len() as nat / T::spec_size() && seq_to_bytes(v@)
            == bytes@.take((v@.len() * T::spec_size()) as int),
        r matches Err(e) ==> e matches Error::Guard(g) && g.required == T::spec_size()
            && g.actual == bytes@.len() && g.reason == G::reject_reason(
            bytes@.len() as nat,
            T::spec_size(),
        ),
{
    let size = T::size();
    match G::check(bytes.len(), size) {
        Ok(()) => {
            let count = leading_count::<T>(bytes.len());
            Ok(read_values(bytes, count))
        },
        Err(g) => Err(Error::Guard(g)),
    }
}

/// View a byte slice as a sequence of values of an arbitrary trivially
/// transmutable type.
///
/// The resulting vector has as many instances of the type as fit in the
/// slice, rounded down.  The permissive boundary policy accepts every
/// length, which makes it possible for this function to return the values
/// directly, without a `Result`.
pub fn guarded_transmute_many_permissive<T: TriviallyTransmutable>(bytes: &[u8]) -> (r: Vec<T>)
    ensures
        r@.len() == bytes@.len() as nat / T::spec_size(),
        seq_to_bytes(r@) == bytes@.take((r@.len() * T::spec_size()) as int),
{
    let count = leading_count::<T>(bytes.len());
    read_values(bytes, count)
}

/// Transform a byte vector into a vector of an arbitrary trivially
/// transmutable type.
///
/// The required length of the vector depends on the chosen boundary guard;
/// the produced values are read from as many whole size-of-`T` chunks as
/// the buffer holds, rounded down.
///
/// # Errors
///
/// An error is returned if the vector's length does not comply with the
/// boundary guard `G`.
pub fn guarded_transmute_vec<T: TriviallyTransmutable, G: Guard>(bytes: Vec<u8>) -> (r: Result<
    Vec<T>,
    Error<'static, u8, T>,
>)
    ensures
        r is Ok <==> G::accepts(bytes@.len() as nat, T::spec_size()),
        r matches Ok(v) ==> v@.len() == bytes@.len() as nat / T::spec_size() && seq_to_bytes(v@)
            == bytes@.take((v@.len() * T::spec_size()) as int),
        r matches Err(e) ==> e matches Error::Guard(g) && g.required == T::spec_size()
            && g.actual == bytes@.len() && g.reason == G::reject_reason(
            bytes@.len() as nat,
            T::spec_size(),
        ),
{
    let size = T::size();
    match G::check(bytes.len(), size) {
        Ok(()) => {
            let count = leading_count::<T>(bytes.len());
            Ok(read_values(bytes.as_slice(), count))
        },
        Err(g) => Err(Error::Guard(g)),
    }
}

/// Transform a byte vector into a vector of an arbitrary trivially
/// transmutable type.
///
/// The resulting vector has as many instances of the type as fit in the
/// buffer, rounded down, so no length is ever rejected.
pub fn guarded_transmute_vec_permissive<T: TriviallyTransmutable>(bytes: Vec<u8>) -> (r: Vec<T>)
    ensures
        r@.len() == bytes@.len() as nat / T::spec_size(),
        seq_to_bytes(r@) == bytes@.take((r@.len() * T::spec_size()) as int),
{
    let count = leading_count::<T>(bytes.len());
    read_values(bytes.as_slice(), count)
}

} // verus!
