//! Conversions with the full set of checks.
//!
//! Every function here runs the complete pipeline: a boundary guard
//! decides whether the buffer's length is acceptable, then the alignment
//! check decides whether the buffer's address conforms to the target type,
//! and only then are values read out of the bytes.  The first failing stage
//! short-circuits with its own error; success never partially completes.

use vstd::prelude::*;

use vstd::arithmetic::mul::lemma_mul_is_commutative;

use crate::align::check_alignment;
use crate::error::{Error, ErrorReason, IncompatibleVecTargetError};
use crate::guard::{Guard, PedanticGuard, PermissiveGuard, SingleManyGuard, SingleValueGuard};
use crate::trivial::{
    leading_count, lemma_seq_to_bytes_len, read_one, read_values, seq_to_bytes, write_values,
    TriviallyTransmutable,
};

verus! {

/// Transmute a byte slice, whose first byte sits at address `addr`, into a
/// single instance of a trivially transmutable type.
///
/// The byte slice must have at least enough bytes to fill a single instance
/// of the type; extraneous data is ignored.  The value is produced by
/// copying out of the buffer; the buffer itself is untouched.
///
/// # Errors
///
/// An error is returned in one of the following situations:
///
/// - The data does not have enough bytes for a single value `T`.
/// - The address is not aligned for `T`.  Recover by copying, or change how
///   the data was originally made.
pub fn transmute_one<'a, T: TriviallyTransmutable>(bytes: &'a [u8], addr: usize) -> (r: Result<
    T,
    Error<'a, u8, T>,
>)
    ensures
        r is Ok <==> bytes@.len() >= T::spec_size() && addr as nat % T::spec_align() == 0,
        r matches Ok(v) ==> v.spec_to_bytes() == bytes@.take(T::spec_size() as int),
        bytes@.len() < T::spec_size() ==> (r matches Err(e) && e matches Error::Guard(g)
            && g.required == T::spec_size() && g.actual == bytes@.len() && g.reason
            == ErrorReason::NotEnoughBytes),
        bytes@.len() >= T::spec_size() && addr as nat % T::spec_align() != 0 ==> (r matches Err(e)
            && e matches Error::Unaligned(u) && u.offset == T::spec_align() - addr as nat
            % T::spec_align() && u.source == bytes),
{
    let size = T::size();
    match SingleManyGuard::check(bytes.len(), size) {
        Ok(()) => {},
        Err(g) => {
            return Err(Error::Guard(g));
        },
    }
    match check_alignment::<u8, T>(bytes, addr) {
        Ok(()) => {},
        Err(u) => {
            return Err(Error::Unaligned(u));
        },
    }
    Ok(read_one(bytes))
}

/// Transmute a byte slice, whose first byte sits at address `addr`, into a
/// single instance of a trivially transmutable type.
///
/// The byte slice must have exactly enough bytes to fill a single instance
/// of the type.
///
/// # Errors
///
/// An error is returned in one of the following situations:
///
/// - The data's length is not exactly the size of a single value `T`.
/// - The address is not aligned for `T`.  Recover by copying, or change how
///   the data was originally made.
pub fn transmute_one_pedantic<'a, T: TriviallyTransmutable>(bytes: &'a [u8], addr: usize) -> (r:
    Result<T, Error<'a, u8, T>>)
    ensures
        r is Ok <==> bytes@.len() == T::spec_size() && addr as nat % T::spec_align() == 0,
        r matches Ok(v) ==> v.spec_to_bytes() == bytes@,
        bytes@.len() != T::spec_size() ==> (r matches Err(e) && e matches Error::Guard(g)
            && g.required == T::spec_size() && g.actual == bytes@.len() && g.reason
            == ErrorReason::InexactByteCount),
        bytes@.len() == T::spec_size() && addr as nat % T::spec_align() != 0 ==> (r matches Err(e)
            && e matches Error::Unaligned(u) && u.offset == T::spec_align() - addr as nat
            % T::spec_align() && u.source == bytes),
{
    let size = T::size();
    match SingleValueGuard::check(bytes.len(), size) {
        Ok(()) => {},
        Err(g) => {
            return Err(Error::Guard(g));
        },
    }
    match check_alignment::<u8, T>(bytes, addr) {
        Ok(()) => {},
        Err(u) => {
            return Err(Error::Unaligned(u));
        },
    }
    let v = read_one::<T>(bytes);
    proof {
        assert(bytes@.take(T::spec_size() as int) =~= bytes@);
    }
    Ok(v)
}

/// Transmute a byte slice, whose first byte sits at address `addr`, into a
/// sequence of values of the given type.
///
/// The required byte length of the slice depends on the chosen boundary
/// guard; the produced values are read from as many whole size-of-`T`
/// chunks as the slice holds, rounded down.
///
/// # Errors
///
/// An error is returned in one of the following situations:
///
/// - The data's length does not comply with the boundary guard `G`.
/// - The address is not aligned for `T`.  Recover by copying, or change how
///   the data was originally made.
pub fn transmute_many<'a, T: TriviallyTransmutable, G: Guard>(bytes: &'a [u8], addr: usize) -> (r:
    Result<Vec<T>, Error<'a, u8, T>>)
    ensures
        r is Ok <==> G::accepts(bytes@.len() as nat, T::spec_size()) && addr as nat
            % T::spec_align() == 0,
        r matches Ok(v) ==> v@.len() == bytes@.len() as nat / T::spec_size() && seq_to_bytes(v@)
            == bytes@.take((v@.len() * T::spec_size()) as int),
        !G::accepts(bytes@.len() as nat, T::spec_size()) ==> (r matches Err(e) && e matches
            Error::Guard(g) && g.required == T::spec_size() && g.actual == bytes@.len()
            && g.reason == G::reject_reason(bytes@.len() as nat, T::spec_size())),
        G::accepts(bytes@.len() as nat, T::spec_size()) && addr as nat % T::spec_align() != 0
            ==> (r matches Err(e) && e matches Error::Unaligned(u) && u.offset == T::spec_align()
            - addr as nat % T::spec_align() && u.source == bytes),
{
    let size = T::size();
    match G::check(bytes.len(), size) {
        Ok(()) => {},
        Err(g) => {
            return Err(Error::Guard(g));
        },
    }
    match check_alignment::<u8, T>(bytes, addr) {
        Ok(()) => {},
        Err(u) => {
            return Err(Error::Unaligned(u));
        },
    }
    let count = leading_count::<T>(bytes.len());
    Ok(read_values(bytes, count))
}

/// Transmute a byte slice, whose first byte sits at address `addr`, into a
/// sequence of values of the given type.
///
/// The resulting vector has as many instances of the type as fit in the
/// slice, rounded down, so no length is ever rejected.
///
/// # Errors
///
/// An error is returned if the address is not aligned for `T`.
pub fn transmute_many_permissive<'a, T: TriviallyTransmutable>(bytes: &'a [u8], addr: usize) -> (r:
    Result<Vec<T>, Error<'a, u8, T>>)
    ensures
        r is Ok <==> addr as nat % T::spec_align() == 0,
        r matches Ok(v) ==> v@.len() == bytes@.len() as nat / T::spec_size() && seq_to_bytes(v@)
            == bytes@.take((v@.len() * T::spec_size()) as int),
        r matches Err(e) ==> e matches Error::Unaligned(u) && u.offset == T::spec_align()
            - addr as nat % T::spec_align() && u.source == bytes,
{
    transmute_many::<T, PermissiveGuard>(bytes, addr)
}

/// Transmute a byte slice, whose first byte sits at address `addr`, into a
/// sequence of values of the given type.
///
/// The byte slice must hold at least one value of the type and no
/// extraneous bytes at the end.
///
/// # Errors
///
/// An error is returned in one of the following situations:
///
/// - The data does not have enough bytes for a single value `T`, or leaves
///   a trailing fragment.
/// - The address is not aligned for `T`.  Recover by copying, or change how
///   the data was originally made.
pub fn transmute_many_pedantic<'a, T: TriviallyTransmutable>(bytes: &'a [u8], addr: usize) -> (r:
    Result<Vec<T>, Error<'a, u8, T>>)
    ensures
        r is Ok <==> bytes@.len() >= T::spec_size() && bytes@.len() as nat % T::spec_size() == 0
            && addr as nat % T::spec_align() == 0,
        r matches Ok(v) ==> v@.len() == bytes@.len() as nat / T::spec_size() && seq_to_bytes(v@)
            == bytes@.take((v@.len() * T::spec_size()) as int),
        bytes@.len() < T::spec_size() ==> (r matches Err(e) && e matches Error::Guard(g)
            && g.required == T::spec_size() && g.actual == bytes@.len() && g.reason
            == ErrorReason::NotEnoughBytes),
        bytes@.len() >= T::spec_size() && bytes@.len() as nat % T::spec_size() != 0 ==> (r matches
            Err(e) && e matches Error::Guard(g) && g.required == T::spec_size() && g.actual
            == bytes@.len() && g.reason == ErrorReason::InexactByteCount),
        bytes@.len() >= T::spec_size() && bytes@.len() as nat % T::spec_size() == 0 && addr as nat
            % T::spec_align() != 0 ==> (r matches Err(e) && e matches Error::Unaligned(u)
            && u.offset == T::spec_align() - addr as nat % T::spec_align() && u.source == bytes),
{
    proof {
        T::layout_properties();
    }
    transmute_many::<T, PedanticGuard>(bytes, addr)
}

/// Transform a vector of one trivially transmutable element type into a
/// vector of another.
///
/// The conversion is accepted exactly when the two element types have the
/// same size and the same minimum alignment; the values then change type
/// but the underlying bytes do not.
///
/// # Errors
///
/// An error is returned if *either* the size or the minimum alignment
/// differs between `S` and `T`.  The error carries the original vector
/// back to the caller, whose explicit copy request is then the way to the
/// target type regardless of layout.
pub fn transmute_vec<S: TriviallyTransmutable, T: TriviallyTransmutable>(vec: Vec<S>) -> (r:
    Result<Vec<T>, Error<'static, S, T>>)
    ensures
        r is Ok <==> S::spec_size() == T::spec_size() && S::spec_align() == T::spec_align(),
        r matches Ok(v) ==> v@.len() == vec@.len() && seq_to_bytes(v@) == seq_to_bytes(vec@),
        r matches Err(e) ==> e matches Error::IncompatibleVecTarget(i) && i.vec@ == vec@,
{
    let s_size = S::size();
    let t_size = T::size();
    let s_align = S::align();
    let t_align = T::align();
    if s_align != t_align || s_size != t_size {
        return Err(Error::IncompatibleVecTarget(IncompatibleVecTargetError::new(vec)));
    }
    let bytes = write_values(vec.as_slice());
    let count = vec.len();
    proof {
        lemma_seq_to_bytes_len::<S>(vec@);
        lemma_mul_is_commutative(vec@.len() as int, S::spec_size() as int);
    }
    let out = read_values::<T>(bytes.as_slice(), count);
    proof {
        assert(bytes@.take((count * T::spec_size()) as int) =~= bytes@);
    }
    Ok(out)
}

} // verus!
