//! Alignment checking primitives.

use vstd::prelude::*;

use vstd::arithmetic::div_mod::{lemma_fundamental_div_mod, lemma_mod_multiples_basic};
use vstd::arithmetic::mul::lemma_mul_is_distributive_add_other_way;

use crate::error::UnalignedError;
use crate::trivial::TriviallyTransmutable;

verus! {

/// Check whether the given data slice of `S`s, whose first byte sits at
/// address `addr`, is properly aligned for reading as a slice of `T`s.
///
/// Verified code cannot observe where a slice lives in memory, so the
/// caller, who can, passes the address alongside the data.  The check is a
/// pure function of that address and the target type's alignment: it
/// succeeds exactly when the address is a multiple of the alignment.
///
/// # Errors
///
/// An [`UnalignedError`] is returned with the number of bytes to discard
/// from the front in order to make the conversion safe from alignment
/// concerns.  That count is always strictly between zero and the target
/// type's alignment, and discarding it yields a conforming address.
pub fn check_alignment<'a, S, T: TriviallyTransmutable>(data: &'a [S], addr: usize) -> (r: Result<
    (),
    UnalignedError<'a, S, T>,
>)
    ensures
        r is Ok <==> addr as nat % T::spec_align() == 0,
        r matches Err(e) ==> {
            &&& e.offset == T::spec_align() - addr as nat % T::spec_align()
            &&& 0 < e.offset < T::spec_align()
            &&& (addr + e.offset) % T::spec_align() as int == 0
            &&& e.source == data
        },
{
    proof {
        T::layout_properties();
    }
    let align = T::align();
    let offset = addr % align;
    if offset > 0 {
        proof {
            let al = align as int;
            let a = addr as int;
            lemma_fundamental_div_mod(a, al);
            let k = a / al;
            lemma_mul_is_distributive_add_other_way(al, k, 1);
            assert(a + (al - (a % al)) == (k + 1) * al);
            lemma_mod_multiples_basic(k + 1, al);
            assert(((k + 1) * al) % al == 0);
        }
        Err(UnalignedError::new(align - offset, data))
    } else {
        Ok(())
    }
}

} // verus!
