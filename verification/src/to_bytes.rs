//! Functions for transmutation *from* a concrete type *to* bytes.
//!
//! This direction needs no checks: byte alignment (one) divides every
//! alignment, and byte granularity evenly divides any size, so turning
//! values into their bytes cannot fail.

use vstd::prelude::*;

use vstd::arithmetic::div_mod::lemma_div_by_multiple;

use crate::error::Error;
use crate::full::transmute_vec;
use crate::pod::PodTransmutable;
use crate::trivial::{
    lemma_seq_to_bytes_injective, lemma_seq_to_bytes_len, lemma_u8_seq_to_bytes_identity,
    seq_to_bytes, write_values, TriviallyTransmutable,
};

verus! {

/// Transmute a single instance of a trivially transmutable type into its
/// bytes.
pub fn transmute_one_to_bytes<S: TriviallyTransmutable>(from: &S) -> (r: Vec<u8>)
    ensures
        r@ == from.spec_to_bytes(),
{
    from.to_bytes()
}

/// Transmute a slice of a trivially transmutable type into the
/// concatenation of its elements' bytes.
pub fn transmute_to_bytes<S: TriviallyTransmutable>(from: &[S]) -> (r: Vec<u8>)
    ensures
        r@ == seq_to_bytes(from@),
{
    write_values(from)
}

/// Transmute a slice of a plain-data type into the concatenation of its
/// elements' bytes.
///
/// This is the older name of [`transmute_to_bytes`]; prefer that one.
pub fn guarded_transmute_to_bytes_pod_many<S: PodTransmutable>(from: &[S]) -> (r: Vec<u8>)
    ensures
        r@ == seq_to_bytes(from@),
{
    write_values(from)
}

/// Transmute a vector of elements of a trivially transmutable type into a
/// vector of their bytes.
///
/// This is equivalent to calling [`transmute_vec`] with `u8` as the target
/// type.
///
/// # Errors
///
/// An error is returned unless `S` has both the size and the minimum
/// alignment of a byte; the error carries the original vector back to the
/// caller.
pub fn transmute_to_bytes_vec<S: TriviallyTransmutable>(from: Vec<S>) -> (r: Result<
    Vec<u8>,
    Error<'static, S, u8>,
>)
    ensures
        r is Ok <==> S::spec_size() == 1 && S::spec_align() == 1,
        r matches Ok(v) ==> v@ == seq_to_bytes(from@),
        r matches Err(e) ==> e matches Error::IncompatibleVecTarget(i) && i.vec@ == from@,
{
    match transmute_vec::<S, u8>(from) {
        Ok(v) => {
            proof {
                lemma_u8_seq_to_bytes_identity(v@);
            }
            Ok(v)
        },
        Err(e) => Err(e),
    }
}


/// Law: reinterpreting typed data to bytes and back under the permissive
/// policy reproduces the original data.
///
/// [`transmute_to_bytes`] turns a sequence of values into its bytes, and a
/// permissive read such as
/// [`transmute_many_permissive`](crate::transmute_many_permissive) promises
/// in return a sequence of `floor(len / size)` values whose bytes are the
/// leading whole-value bytes of its input.  This law closes the loop: any
/// sequence meeting that promise on the bytes of `data` is `data` itself,
/// because the byte count is an exact multiple of the value size, so
/// nothing is truncated, and the byte representation is one-to-one.
pub proof fn lemma_bytes_round_trip<T: TriviallyTransmutable>(data: Seq<T>, round: Seq<T>)
    requires
        round.len() == seq_to_bytes(data).len() / T::spec_size(),
        seq_to_bytes(round) == seq_to_bytes(data).take((round.len() * T::spec_size()) as int),
    ensures
        round == data,
{
    T::layout_properties();
    lemma_seq_to_bytes_len::<T>(data);
    lemma_div_by_multiple(data.len() as int, T::spec_size() as int);
    assert(round.len() == data.len());
    assert(seq_to_bytes(data).take((round.len() * T::spec_size()) as int) =~= seq_to_bytes(data));
    lemma_seq_to_bytes_injective(round, data);
}

} // verus!
