//! Module containing various utility functions.

use vstd::prelude::*;

use crate::error::Error;
use crate::trivial::{seq_to_bytes, TriviallyTransmutable};

verus! {

/// Retrieve the result of a transmutation, copying the data if it could not
/// be performed because of memory placement constraints.
///
/// A failure that only reflects where the data sits — an unaligned buffer,
/// or an owned buffer whose element layout differs from the target's — is
/// recovered by the error's own guaranteed copy into a fresh allocation.  A
/// failure that reflects what the data *is* — a boundary violation or an
/// invalid value — is propagated unchanged, since no copy can mend it.
pub fn attempt_copy<'a, S: TriviallyTransmutable, T: TriviallyTransmutable>(
    res: Result<Vec<T>, Error<'a, S, T>>,
) -> (r: Result<Vec<T>, Error<'a, S, T>>)
    ensures
        res matches Ok(v) ==> (r matches Ok(w) && w == v),
        res matches Err(Error::Unaligned(e)) ==> (r matches Ok(w) && w@.len() == e.source@.len()
            * S::spec_size() / T::spec_size() && seq_to_bytes(w@) == seq_to_bytes(
            e.source@,
        ).take((w@.len() * T::spec_size()) as int)),
        res matches Err(Error::IncompatibleVecTarget(e)) ==> (r matches Ok(w) && w@.len()
            == e.vec@.len() * S::spec_size() / T::spec_size() && seq_to_bytes(w@)
            == seq_to_bytes(e.vec@).take((w@.len() * T::spec_size()) as int)),
        res matches Err(Error::Guard(g)) ==> (r matches Err(e2) && e2 matches Error::Guard(g2)
            && g2 == g),
        res matches Err(Error::InvalidValue) ==> (r matches Err(e2) && e2 matches
            Error::InvalidValue),
{
    match res {
        Ok(v) => Ok(v),
        Err(Error::Unaligned(e)) => Ok(e.copy()),
        Err(Error::IncompatibleVecTarget(e)) => Ok(e.copy()),
        Err(e) => Err(e),
    }
}

pub const F32_EXP_MASK: u32 = 0x7F80_0000;

pub const F32_QNAN_MASK: u32 = 0x0040_0000;

pub const F32_FRACT_MASK: u32 = 0x007F_FFFF;

pub const F64_EXP_MASK: u64 = 0x7FF0_0000_0000_0000;

pub const F64_QNAN_MASK: u64 = 0x0001_0000_0000_0000;

pub const F64_FRACT_MASK: u64 = 0x000F_FFFF_FFFF_FFFF;

/// Whether the bit pattern is a signalling NaN once read as a 32-bit
/// float: all exponent bits set, a nonzero fraction, and the quiet bit —
/// the highest fraction bit, bit 22 — clear.
pub open spec fn is_signalling_nan_f32_bits(bits: u32) -> bool {
    bits & F32_EXP_MASK == F32_EXP_MASK && bits & F32_FRACT_MASK != 0 && bits & F32_QNAN_MASK == 0
}

/// Whether the bit pattern is a NaN once read as a 64-bit float — all
/// exponent bits set and a nonzero fraction — with this crate's chosen
/// quiet-marker bit (bit 48) clear.  Note that this marker is not the
/// IEEE-754 quiet bit, which is the highest fraction bit (bit 51), so a
/// pattern this predicate rejects can still be a signalling NaN by IEEE's
/// definition.
pub open spec fn is_signalling_nan_f64_bits(bits: u64) -> bool {
    bits & F64_EXP_MASK == F64_EXP_MASK && bits & F64_FRACT_MASK != 0 && bits & F64_QNAN_MASK == 0
}

/// If the given bits make a NaN once read as a 32-bit float, set the
/// highest fraction bit, so that a signalling NaN becomes a quiet NaN; any
/// other bit pattern passes through unchanged.
pub fn designalise_f32_bits(bits: u32) -> (r: u32)
    ensures
        bits & F32_EXP_MASK == F32_EXP_MASK && bits & F32_FRACT_MASK != 0 ==> r == bits
            | F32_QNAN_MASK,
        !(bits & F32_EXP_MASK == F32_EXP_MASK && bits & F32_FRACT_MASK != 0) ==> r == bits,
        !is_signalling_nan_f32_bits(r),
{
    if bits & F32_EXP_MASK == F32_EXP_MASK && bits & F32_FRACT_MASK != 0 {
        proof {
            assert((bits | 0x0040_0000u32) & 0x0040_0000u32 != 0u32) by (bit_vector);
        }
        bits | F32_QNAN_MASK
    } else {
        bits
    }
}

/// If the given bits make a NaN once read as a 64-bit float, set fraction
/// bit 48; any other bit pattern passes through unchanged.  Bit 48 is not
/// the IEEE-754 quiet bit (the highest fraction bit, bit 51), so the
/// result can still be a signalling NaN by IEEE's definition; the marked
/// bit is nevertheless what this crate's fixup pins down.
pub fn designalise_f64_bits(bits: u64) -> (r: u64)
    ensures
        bits & F64_EXP_MASK == F64_EXP_MASK && bits & F64_FRACT_MASK != 0 ==> r == bits
            | F64_QNAN_MASK,
        !(bits & F64_EXP_MASK == F64_EXP_MASK && bits & F64_FRACT_MASK != 0) ==> r == bits,
        !is_signalling_nan_f64_bits(r),
{
    if bits & F64_EXP_MASK == F64_EXP_MASK && bits & F64_FRACT_MASK != 0 {
        proof {
            assert((bits | 0x0001_0000_0000_0000u64) & 0x0001_0000_0000_0000u64 != 0u64)
                by (bit_vector);
        }
        bits | F64_QNAN_MASK
    } else {
        bits
    }
}

} // verus!
