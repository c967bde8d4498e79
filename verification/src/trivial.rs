//! The capability of a type to be built from arbitrary bytes.
//!
//! A type implementing [`TriviallyTransmutable`] asserts that *every* byte
//! sequence of the type's size is the representation of some value of the
//! type, so reading such a type out of a checked buffer needs no value
//! validation at all.  This is the case for primitive integer types and for
//! fixed-size arrays of such types.  It is *not* the case for types with a
//! restricted value domain — a boolean must be 0 or 1, so booleans are
//! handled by the separate, value-checking [`bool`](crate::bool) module.
//!
//! Here the capability is not a bare marker: an implementation must exhibit
//! the correspondence between values and their bytes ([`spec_to_bytes`])
//! and prove that it is one-to-one and onto byte sequences of the right
//! length.  Byte representations are least-significant-byte first.
//!
//! [`spec_to_bytes`]: TriviallyTransmutable::spec_to_bytes

use vstd::prelude::*;

use vstd::arithmetic::div_mod::lemma_fundamental_div_mod;
use vstd::arithmetic::mul::{lemma_mul_inequality, lemma_mul_is_distributive_add_other_way};
use vstd::bytes::{
    lemma_auto_spec_u128_to_from_le_bytes, lemma_auto_spec_u16_to_from_le_bytes,
    lemma_auto_spec_u32_to_from_le_bytes, lemma_auto_spec_u64_to_from_le_bytes,
    spec_u128_from_le_bytes, spec_u128_to_le_bytes, spec_u16_from_le_bytes, spec_u16_to_le_bytes,
    spec_u32_from_le_bytes, spec_u32_to_le_bytes, spec_u64_from_le_bytes, spec_u64_to_le_bytes,
    u128_from_le_bytes, u128_to_le_bytes, u16_from_le_bytes, u16_to_le_bytes, u32_from_le_bytes,
    u32_to_le_bytes, u64_from_le_bytes, u64_to_le_bytes,
};
use vstd::array::{array_as_slice, array_index_get};
use vstd::slice::{slice_index_get, slice_subrange, slice_to_vec};

verus! {

/// Type that can be constructed from any combination of bytes.
///
/// A type `T` implementing this trait means that any arbitrary sequence of
/// bytes of length `T::spec_size()` is the representation of some value of
/// that type.  Every conversion function in this crate that produces
/// values without inspecting their bytes requires this capability.
///
/// *Nota bene*: `bool` is not `TriviallyTransmutable` because booleans are
/// restricted to being `0` or `1`, which means that an additional value
/// check is required.
///
/// An implementation must tie its values to their byte representations:
/// [`spec_to_bytes`](Self::spec_to_bytes) gives each value a representation
/// of exactly [`spec_size`](Self::spec_size) bytes, provably distinct for
/// distinct values, and [`from_bytes`](Self::from_bytes) recovers a value
/// from *every* byte sequence of that length.  Together these say that the
/// representation is a bijection, which is precisely the "any bit pattern
/// is valid" capability.
pub trait TriviallyTransmutable: Sized + Copy {
    /// The size of the type in bytes.
    spec fn spec_size() -> nat;

    /// The minimum memory alignment of the type in bytes.
    spec fn spec_align() -> nat;

    /// The byte representation of a value, least-significant byte first.
    spec fn spec_to_bytes(self) -> Seq<u8>;

    /// Law: the type occupies at least one byte and has a positive
    /// alignment.
    proof fn layout_properties()
        ensures
            Self::spec_size() >= 1,
            Self::spec_align() >= 1,
    ;

    /// Law: every value's representation has exactly `spec_size()` bytes.
    proof fn to_bytes_len(self)
        ensures
            self.spec_to_bytes().len() == Self::spec_size(),
    ;

    /// Law: distinct values have distinct byte representations.
    proof fn to_bytes_injective(a: Self, b: Self)
        requires
            a.spec_to_bytes() == b.spec_to_bytes(),
        ensures
            a == b,
    ;

    /// The size of the type in bytes.
    fn size() -> (r: usize)
        ensures
            r == Self::spec_size(),
    ;

    /// The minimum memory alignment of the type in bytes.
    fn align() -> (r: usize)
        ensures
            r == Self::spec_align(),
    ;

    /// Write the value out as its bytes.
    fn to_bytes(&self) -> (r: Vec<u8>)
        ensures
            r@ == self.spec_to_bytes(),
    ;

    /// Build the value whose representation is `bytes`.
    ///
    /// Every byte sequence of the type's size is acceptable: this totality
    /// is what makes the type trivially transmutable.
    fn from_bytes(bytes: &[u8]) -> (r: Self)
        requires
            bytes@.len() == Self::spec_size(),
        ensures
            r.spec_to_bytes() == bytes@,
    ;
}

impl TriviallyTransmutable for u8 {
    open spec fn spec_size() -> nat {
        1
    }

    open spec fn spec_align() -> nat {
        1
    }

    open spec fn spec_to_bytes(self) -> Seq<u8> {
        seq![self]
    }

    proof fn layout_properties() {
    }

    proof fn to_bytes_len(self) {
    }

    proof fn to_bytes_injective(a: Self, b: Self) {
        assert(a == a.spec_to_bytes()[0]);
    }

    fn size() -> (r: usize) {
        1
    }

    fn align() -> (r: usize) {
        1
    }

    fn to_bytes(&self) -> (r: Vec<u8>) {
        let mut out: Vec<u8> = Vec::new();
        out.push(*self);
        proof {
            assert(out@ =~= seq![*self]);
        }
        out
    }

    fn from_bytes(bytes: &[u8]) -> (r: Self) {
        let r = *slice_index_get(bytes, 0);
        proof {
            assert(r.spec_to_bytes() =~= bytes@);
        }
        r
    }
}

impl TriviallyTransmutable for i8 {
    open spec fn spec_size() -> nat {
        1
    }

    open spec fn spec_align() -> nat {
        1
    }

    open spec fn spec_to_bytes(self) -> Seq<u8> {
        seq![self as u8]
    }

    proof fn layout_properties() {
    }

    proof fn to_bytes_len(self) {
    }

    proof fn to_bytes_injective(a: Self, b: Self) {
        assert(a as u8 == a.spec_to_bytes()[0]);
        assert(a as u8 == b as u8 ==> a == b) by (bit_vector);
    }

    fn size() -> (r: usize) {
        1
    }

    fn align() -> (r: usize) {
        1
    }

    fn to_bytes(&self) -> (r: Vec<u8>) {
        let mut out: Vec<u8> = Vec::new();
        out.push(*self as u8);
        proof {
            assert(out@ =~= seq![*self as u8]);
        }
        out
    }

    fn from_bytes(bytes: &[u8]) -> (r: Self) {
        let b = *slice_index_get(bytes, 0);
        let r = b as i8;
        proof {
            assert(b as i8 as u8 == b) by (bit_vector);
            assert(r.spec_to_bytes() =~= bytes@);
        }
        r
    }
}

impl TriviallyTransmutable for u16 {
    open spec fn spec_size() -> nat {
        2
    }

    open spec fn spec_align() -> nat {
        2
    }

    open spec fn spec_to_bytes(self) -> Seq<u8> {
        spec_u16_to_le_bytes(self)
    }

    proof fn layout_properties() {
    }

    proof fn to_bytes_len(self) {
        lemma_auto_spec_u16_to_from_le_bytes();
    }

    proof fn to_bytes_injective(a: Self, b: Self) {
        lemma_auto_spec_u16_to_from_le_bytes();
        assert(spec_u16_to_le_bytes(a).len() == 2);
        assert(spec_u16_to_le_bytes(b).len() == 2);
        assert(spec_u16_from_le_bytes(spec_u16_to_le_bytes(a)) == a);
        assert(spec_u16_from_le_bytes(spec_u16_to_le_bytes(b)) == b);
    }

    fn size() -> (r: usize) {
        2
    }

    fn align() -> (r: usize) {
        2
    }

    fn to_bytes(&self) -> (r: Vec<u8>) {
        u16_to_le_bytes(*self)
    }

    fn from_bytes(bytes: &[u8]) -> (r: Self) {
        let r = u16_from_le_bytes(bytes);
        proof {
            lemma_auto_spec_u16_to_from_le_bytes();
        }
        r
    }
}

impl TriviallyTransmutable for i16 {
    open spec fn spec_size() -> nat {
        2
    }

    open spec fn spec_align() -> nat {
        2
    }

    open spec fn spec_to_bytes(self) -> Seq<u8> {
        spec_u16_to_le_bytes(self as u16)
    }

    proof fn layout_properties() {
    }

    proof fn to_bytes_len(self) {
        lemma_auto_spec_u16_to_from_le_bytes();
    }

    proof fn to_bytes_injective(a: Self, b: Self) {
        lemma_auto_spec_u16_to_from_le_bytes();
        assert(spec_u16_to_le_bytes(a as u16).len() == 2);
        assert(spec_u16_to_le_bytes(b as u16).len() == 2);
        assert(spec_u16_from_le_bytes(spec_u16_to_le_bytes(a as u16)) == a as u16);
        assert(spec_u16_from_le_bytes(spec_u16_to_le_bytes(b as u16)) == b as u16);
        assert(a as u16 == b as u16 ==> a == b) by (bit_vector);
    }

    fn size() -> (r: usize) {
        2
    }

    fn align() -> (r: usize) {
        2
    }

    fn to_bytes(&self) -> (r: Vec<u8>) {
        u16_to_le_bytes(*self as u16)
    }

    fn from_bytes(bytes: &[u8]) -> (r: Self) {
        let x = u16_from_le_bytes(bytes);
        let r = x as i16;
        proof {
            lemma_auto_spec_u16_to_from_le_bytes();
            assert(x as i16 as u16 == x) by (bit_vector);
        }
        r
    }
}

impl TriviallyTransmutable for u32 {
    open spec fn spec_size() -> nat {
        4
    }

    open spec fn spec_align() -> nat {
        4
    }

    open spec fn spec_to_bytes(self) -> Seq<u8> {
        spec_u32_to_le_bytes(self)
    }

    proof fn layout_properties() {
    }

    proof fn to_bytes_len(self) {
        lemma_auto_spec_u32_to_from_le_bytes();
    }

    proof fn to_bytes_injective(a: Self, b: Self) {
        lemma_auto_spec_u32_to_from_le_bytes();
        assert(spec_u32_to_le_bytes(a).len() == 4);
        assert(spec_u32_to_le_bytes(b).len() == 4);
        assert(spec_u32_from_le_bytes(spec_u32_to_le_bytes(a)) == a);
        assert(spec_u32_from_le_bytes(spec_u32_to_le_bytes(b)) == b);
    }

    fn size() -> (r: usize) {
        4
    }

    fn align() -> (r: usize) {
        4
    }

    fn to_bytes(&self) -> (r: Vec<u8>) {
        u32_to_le_bytes(*self)
    }

    fn from_bytes(bytes: &[u8]) -> (r: Self) {
        let r = u32_from_le_bytes(bytes);
        proof {
            lemma_auto_spec_u32_to_from_le_bytes();
        }
        r
    }
}

impl TriviallyTransmutable for i32 {
    open spec fn spec_size() -> nat {
        4
    }

    open spec fn spec_align() -> nat {
        4
    }

    open spec fn spec_to_bytes(self) -> Seq<u8> {
        spec_u32_to_le_bytes(self as u32)
    }

    proof fn layout_properties() {
    }

    proof fn to_bytes_len(self) {
        lemma_auto_spec_u32_to_from_le_bytes();
    }

    proof fn to_bytes_injective(a: Self, b: Self) {
        lemma_auto_spec_u32_to_from_le_bytes();
        assert(spec_u32_to_le_bytes(a as u32).len() == 4);
        assert(spec_u32_to_le_bytes(b as u32).len() == 4);
        assert(spec_u32_from_le_bytes(spec_u32_to_le_bytes(a as u32)) == a as u32);
        assert(spec_u32_from_le_bytes(spec_u32_to_le_bytes(b as u32)) == b as u32);
        assert(a as u32 == b as u32 ==> a == b) by (bit_vector);
    }

    fn size() -> (r: usize) {
        4
    }

    fn align() -> (r: usize) {
        4
    }

    fn to_bytes(&self) -> (r: Vec<u8>) {
        u32_to_le_bytes(*self as u32)
    }

    fn from_bytes(bytes: &[u8]) -> (r: Self) {
        let x = u32_from_le_bytes(bytes);
        let r = x as i32;
        proof {
            lemma_auto_spec_u32_to_from_le_bytes();
            assert(x as i32 as u32 == x) by (bit_vector);
        }
        r
    }
}

impl TriviallyTransmutable for u64 {
    open spec fn spec_size() -> nat {
        8
    }

    open spec fn spec_align() -> nat {
        8
    }

    open spec fn spec_to_bytes(self) -> Seq<u8> {
        spec_u64_to_le_bytes(self)
    }

    proof fn layout_properties() {
    }

    proof fn to_bytes_len(self) {
        lemma_auto_spec_u64_to_from_le_bytes();
    }

    proof fn to_bytes_injective(a: Self, b: Self) {
        lemma_auto_spec_u64_to_from_le_bytes();
        assert(spec_u64_to_le_bytes(a).len() == 8);
        assert(spec_u64_to_le_bytes(b).len() == 8);
        assert(spec_u64_from_le_bytes(spec_u64_to_le_bytes(a)) == a);
        assert(spec_u64_from_le_bytes(spec_u64_to_le_bytes(b)) == b);
    }

    fn size() -> (r: usize) {
        8
    }

    fn align() -> (r: usize) {
        8
    }

    fn to_bytes(&self) -> (r: Vec<u8>) {
        u64_to_le_bytes(*self)
    }

    fn from_bytes(bytes: &[u8]) -> (r: Self) {
        let r = u64_from_le_bytes(bytes);
        proof {
            lemma_auto_spec_u64_to_from_le_bytes();
        }
        r
    }
}

impl TriviallyTransmutable for i64 {
    open spec fn spec_size() -> nat {
        8
    }

    open spec fn spec_align() -> nat {
        8
    }

    open spec fn spec_to_bytes(self) -> Seq<u8> {
        spec_u64_to_le_bytes(self as u64)
    }

    proof fn layout_properties() {
    }

    proof fn to_bytes_len(self) {
        lemma_auto_spec_u64_to_from_le_bytes();
    }

    proof fn to_bytes_injective(a: Self, b: Self) {
        lemma_auto_spec_u64_to_from_le_bytes();
        assert(spec_u64_to_le_bytes(a as u64).len() == 8);
        assert(spec_u64_to_le_bytes(b as u64).len() == 8);
        assert(spec_u64_from_le_bytes(spec_u64_to_le_bytes(a as u64)) == a as u64);
        assert(spec_u64_from_le_bytes(spec_u64_to_le_bytes(b as u64)) == b as u64);
        assert(a as u64 == b as u64 ==> a == b) by (bit_vector);
    }

    fn size() -> (r: usize) {
        8
    }

    fn align() -> (r: usize) {
        8
    }

    fn to_bytes(&self) -> (r: Vec<u8>) {
        u64_to_le_bytes(*self as u64)
    }

    fn from_bytes(bytes: &[u8]) -> (r: Self) {
        let x = u64_from_le_bytes(bytes);
        let r = x as i64;
        proof {
            lemma_auto_spec_u64_to_from_le_bytes();
            assert(x as i64 as u64 == x) by (bit_vector);
        }
        r
    }
}

impl TriviallyTransmutable for u128 {
    open spec fn spec_size() -> nat {
        16
    }

    open spec fn spec_align() -> nat {
        16
    }

    open spec fn spec_to_bytes(self) -> Seq<u8> {
        spec_u128_to_le_bytes(self)
    }

    proof fn layout_properties() {
    }

    proof fn to_bytes_len(self) {
        lemma_auto_spec_u128_to_from_le_bytes();
    }

    proof fn to_bytes_injective(a: Self, b: Self) {
        lemma_auto_spec_u128_to_from_le_bytes();
        assert(spec_u128_to_le_bytes(a).len() == 16);
        assert(spec_u128_to_le_bytes(b).len() == 16);
        assert(spec_u128_from_le_bytes(spec_u128_to_le_bytes(a)) == a);
        assert(spec_u128_from_le_bytes(spec_u128_to_le_bytes(b)) == b);
    }

    fn size() -> (r: usize) {
        16
    }

    fn align() -> (r: usize) {
        16
    }

    fn to_bytes(&self) -> (r: Vec<u8>) {
        u128_to_le_bytes(*self)
    }

    fn from_bytes(bytes: &[u8]) -> (r: Self) {
        let r = u128_from_le_bytes(bytes);
        proof {
            lemma_auto_spec_u128_to_from_le_bytes();
        }
        r
    }
}

impl TriviallyTransmutable for i128 {
    open spec fn spec_size() -> nat {
        16
    }

    open spec fn spec_align() -> nat {
        16
    }

    open spec fn spec_to_bytes(self) -> Seq<u8> {
        spec_u128_to_le_bytes(self as u128)
    }

    proof fn layout_properties() {
    }

    proof fn to_bytes_len(self) {
        lemma_auto_spec_u128_to_from_le_bytes();
    }

    proof fn to_bytes_injective(a: Self, b: Self) {
        lemma_auto_spec_u128_to_from_le_bytes();
        assert(spec_u128_to_le_bytes(a as u128).len() == 16);
        assert(spec_u128_to_le_bytes(b as u128).len() == 16);
        assert(spec_u128_from_le_bytes(spec_u128_to_le_bytes(a as u128)) == a as u128);
        assert(spec_u128_from_le_bytes(spec_u128_to_le_bytes(b as u128)) == b as u128);
        assert(a as u128 == b as u128 ==> a == b) by (bit_vector);
    }

    fn size() -> (r: usize) {
        16
    }

    fn align() -> (r: usize) {
        16
    }

    fn to_bytes(&self) -> (r: Vec<u8>) {
        u128_to_le_bytes(*self as u128)
    }

    fn from_bytes(bytes: &[u8]) -> (r: Self) {
        let x = u128_from_le_bytes(bytes);
        let r = x as i128;
        proof {
            lemma_auto_spec_u128_to_from_le_bytes();
            assert(x as i128 as u128 == x) by (bit_vector);
        }
        r
    }
}

impl TriviallyTransmutable for [u8; 1] {
    open spec fn spec_size() -> nat {
        1
    }

    open spec fn spec_align() -> nat {
        1
    }

    open spec fn spec_to_bytes(self) -> Seq<u8> {
        self@
    }

    proof fn layout_properties() {
    }

    proof fn to_bytes_len(self) {
    }

    proof fn to_bytes_injective(a: Self, b: Self) {
        assert(a =~= b);
    }

    fn size() -> (r: usize) {
        1
    }

    fn align() -> (r: usize) {
        1
    }

    fn to_bytes(&self) -> (r: Vec<u8>) {
        slice_to_vec(array_as_slice(self))
    }

    fn from_bytes(bytes: &[u8]) -> (r: Self) {
        let r = [*slice_index_get(bytes, 0)];
        proof {
            assert(r@ =~= bytes@);
        }
        r
    }
}

impl TriviallyTransmutable for [u8; 2] {
    open spec fn spec_size() -> nat {
        2
    }

    open spec fn spec_align() -> nat {
        1
    }

    open spec fn spec_to_bytes(self) -> Seq<u8> {
        self@
    }

    proof fn layout_properties() {
    }

    proof fn to_bytes_len(self) {
    }

    proof fn to_bytes_injective(a: Self, b: Self) {
        assert(a =~= b);
    }

    fn size() -> (r: usize) {
        2
    }

    fn align() -> (r: usize) {
        1
    }

    fn to_bytes(&self) -> (r: Vec<u8>) {
        slice_to_vec(array_as_slice(self))
    }

    fn from_bytes(bytes: &[u8]) -> (r: Self) {
        let r = [*slice_index_get(bytes, 0), *slice_index_get(bytes, 1)];
        proof {
            assert(r@ =~= bytes@);
        }
        r
    }
}

impl TriviallyTransmutable for [u8; 3] {
    open spec fn spec_size() -> nat {
        3
    }

    open spec fn spec_align() -> nat {
        1
    }

    open spec fn spec_to_bytes(self) -> Seq<u8> {
        self@
    }

    proof fn layout_properties() {
    }

    proof fn to_bytes_len(self) {
    }

    proof fn to_bytes_injective(a: Self, b: Self) {
        assert(a =~= b);
    }

    fn size() -> (r: usize) {
        3
    }

    fn align() -> (r: usize) {
        1
    }

    fn to_bytes(&self) -> (r: Vec<u8>) {
        slice_to_vec(array_as_slice(self))
    }

    fn from_bytes(bytes: &[u8]) -> (r: Self) {
        let r = [
            *slice_index_get(bytes, 0),
            *slice_index_get(bytes, 1),
            *slice_index_get(bytes, 2),
        ];
        proof {
            assert(r@ =~= bytes@);
        }
        r
    }
}

impl TriviallyTransmutable for [u8; 4] {
    open spec fn spec_size() -> nat {
        4
    }

    open spec fn spec_align() -> nat {
        1
    }

    open spec fn spec_to_bytes(self) -> Seq<u8> {
        self@
    }

    proof fn layout_properties() {
    }

    proof fn to_bytes_len(self) {
    }

    proof fn to_bytes_injective(a: Self, b: Self) {
        assert(a =~= b);
    }

    fn size() -> (r: usize) {
        4
    }

    fn align() -> (r: usize) {
        1
    }

    fn to_bytes(&self) -> (r: Vec<u8>) {
        slice_to_vec(array_as_slice(self))
    }

    fn from_bytes(bytes: &[u8]) -> (r: Self) {
        let r = [
            *slice_index_get(bytes, 0),
            *slice_index_get(bytes, 1),
            *slice_index_get(bytes, 2),
            *slice_index_get(bytes, 3),
        ];
        proof {
            assert(r@ =~= bytes@);
        }
        r
    }
}

impl TriviallyTransmutable for [u8; 8] {
    open spec fn spec_size() -> nat {
        8
    }

    open spec fn spec_align() -> nat {
        1
    }

    open spec fn spec_to_bytes(self) -> Seq<u8> {
        self@
    }

    proof fn layout_properties() {
    }

    proof fn to_bytes_len(self) {
    }

    proof fn to_bytes_injective(a: Self, b: Self) {
        assert(a =~= b);
    }

    fn size() -> (r: usize) {
        8
    }

    fn align() -> (r: usize) {
        1
    }

    fn to_bytes(&self) -> (r: Vec<u8>) {
        slice_to_vec(array_as_slice(self))
    }

    fn from_bytes(bytes: &[u8]) -> (r: Self) {
        let r = [
            *slice_index_get(bytes, 0),
            *slice_index_get(bytes, 1),
            *slice_index_get(bytes, 2),
            *slice_index_get(bytes, 3),
            *slice_index_get(bytes, 4),
            *slice_index_get(bytes, 5),
            *slice_index_get(bytes, 6),
            *slice_index_get(bytes, 7),
        ];
        proof {
            assert(r@ =~= bytes@);
        }
        r
    }
}

impl TriviallyTransmutable for [u16; 1] {
    open spec fn spec_size() -> nat {
        2
    }

    open spec fn spec_align() -> nat {
        2
    }

    open spec fn spec_to_bytes(self) -> Seq<u8> {
        self@[0].spec_to_bytes()
    }

    proof fn layout_properties() {
    }

    proof fn to_bytes_len(self) {
        lemma_auto_spec_u16_to_from_le_bytes();
    }

    proof fn to_bytes_injective(a: Self, b: Self) {
        u16::to_bytes_injective(a@[0], b@[0]);
        assert(a@ =~= b@);
        assert(a =~= b);
    }

    fn size() -> (r: usize) {
        2
    }

    fn align() -> (r: usize) {
        2
    }

    fn to_bytes(&self) -> (r: Vec<u8>) {
        array_index_get(self, 0).to_bytes()
    }

    fn from_bytes(bytes: &[u8]) -> (r: Self) {
        let e = u16::from_bytes(bytes);
        let r = [e];
        proof {
            assert(r@[0] == e);
        }
        r
    }
}

impl TriviallyTransmutable for [u16; 2] {
    open spec fn spec_size() -> nat {
        4
    }

    open spec fn spec_align() -> nat {
        2
    }

    open spec fn spec_to_bytes(self) -> Seq<u8> {
        self@[0].spec_to_bytes() + self@[1].spec_to_bytes()
    }

    proof fn layout_properties() {
    }

    proof fn to_bytes_len(self) {
        lemma_auto_spec_u16_to_from_le_bytes();
    }

    proof fn to_bytes_injective(a: Self, b: Self) {
        lemma_auto_spec_u16_to_from_le_bytes();
        let ab = a.spec_to_bytes();
        assert(a@[0].spec_to_bytes() =~= ab.take(2));
        assert(b@[0].spec_to_bytes() =~= ab.take(2));
        assert(a@[1].spec_to_bytes() =~= ab.skip(2));
        assert(b@[1].spec_to_bytes() =~= ab.skip(2));
        u16::to_bytes_injective(a@[0], b@[0]);
        u16::to_bytes_injective(a@[1], b@[1]);
        assert(a@ =~= b@);
        assert(a =~= b);
    }

    fn size() -> (r: usize) {
        4
    }

    fn align() -> (r: usize) {
        2
    }

    fn to_bytes(&self) -> (r: Vec<u8>) {
        let mut out = array_index_get(self, 0).to_bytes();
        let mut hi = array_index_get(self, 1).to_bytes();
        out.append(&mut hi);
        out
    }

    fn from_bytes(bytes: &[u8]) -> (r: Self) {
        let lo = u16::from_bytes(slice_subrange(bytes, 0, 2));
        let hi = u16::from_bytes(slice_subrange(bytes, 2, 4));
        let r = [lo, hi];
        proof {
            assert(r.spec_to_bytes() =~= bytes@);
        }
        r
    }
}

impl TriviallyTransmutable for [u16; 4] {
    open spec fn spec_size() -> nat {
        8
    }

    open spec fn spec_align() -> nat {
        2
    }

    open spec fn spec_to_bytes(self) -> Seq<u8> {
        self@[0].spec_to_bytes() + self@[1].spec_to_bytes() + self@[2].spec_to_bytes()
            + self@[3].spec_to_bytes()
    }

    proof fn layout_properties() {
    }

    proof fn to_bytes_len(self) {
        lemma_auto_spec_u16_to_from_le_bytes();
    }

    proof fn to_bytes_injective(a: Self, b: Self) {
        lemma_auto_spec_u16_to_from_le_bytes();
        let ab = a.spec_to_bytes();
        assert(a@[0].spec_to_bytes() =~= ab.take(2));
        assert(b@[0].spec_to_bytes() =~= ab.take(2));
        assert(a@[1].spec_to_bytes() =~= ab.subrange(2, 4));
        assert(b@[1].spec_to_bytes() =~= ab.subrange(2, 4));
        assert(a@[2].spec_to_bytes() =~= ab.subrange(4, 6));
        assert(b@[2].spec_to_bytes() =~= ab.subrange(4, 6));
        assert(a@[3].spec_to_bytes() =~= ab.subrange(6, 8));
        assert(b@[3].spec_to_bytes() =~= ab.subrange(6, 8));
        u16::to_bytes_injective(a@[0], b@[0]);
        u16::to_bytes_injective(a@[1], b@[1]);
        u16::to_bytes_injective(a@[2], b@[2]);
        u16::to_bytes_injective(a@[3], b@[3]);
        assert(a@ =~= b@);
        assert(a =~= b);
    }

    fn size() -> (r: usize) {
        8
    }

    fn align() -> (r: usize) {
        2
    }

    fn to_bytes(&self) -> (r: Vec<u8>) {
        let mut out = array_index_get(self, 0).to_bytes();
        let mut p1 = array_index_get(self, 1).to_bytes();
        let mut p2 = array_index_get(self, 2).to_bytes();
        let mut p3 = array_index_get(self, 3).to_bytes();
        out.append(&mut p1);
        out.append(&mut p2);
        out.append(&mut p3);
        out
    }

    fn from_bytes(bytes: &[u8]) -> (r: Self) {
        let e0 = u16::from_bytes(slice_subrange(bytes, 0, 2));
        let e1 = u16::from_bytes(slice_subrange(bytes, 2, 4));
        let e2 = u16::from_bytes(slice_subrange(bytes, 4, 6));
        let e3 = u16::from_bytes(slice_subrange(bytes, 6, 8));
        let r = [e0, e1, e2, e3];
        proof {
            assert(r.spec_to_bytes() =~= bytes@);
        }
        r
    }
}

/// The bytes of a whole sequence of values: each element's representation,
/// concatenated in order.
pub open spec fn seq_to_bytes<T: TriviallyTransmutable>(s: Seq<T>) -> Seq<u8>
    decreases s.len(),
{
    if s.len() == 0 {
        Seq::empty()
    } else {
        s[0].spec_to_bytes() + seq_to_bytes(s.skip(1))
    }
}

/// The bytes of `n` values are `n` times the size of one value.
pub proof fn lemma_seq_to_bytes_len<T: TriviallyTransmutable>(s: Seq<T>)
    ensures
        seq_to_bytes(s).len() == s.len() * T::spec_size(),
    decreases s.len(),
{
    if s.len() == 0 {
    } else {
        s[0].to_bytes_len();
        lemma_seq_to_bytes_len::<T>(s.skip(1));
        lemma_mul_is_distributive_add_other_way(
            T::spec_size() as int,
            1,
            s.len() as int - 1,
        );
    }
}

/// Appending one value appends exactly its bytes.
pub proof fn lemma_seq_to_bytes_push<T: TriviallyTransmutable>(s: Seq<T>, v: T)
    ensures
        seq_to_bytes(s.push(v)) == seq_to_bytes(s) + v.spec_to_bytes(),
    decreases s.len(),
{
    if s.len() == 0 {
        assert(s.push(v)[0] == v);
        assert(s.push(v).skip(1) =~= Seq::<T>::empty());
        assert(seq_to_bytes(s.push(v).skip(1)) == Seq::<u8>::empty());
        assert(seq_to_bytes(s.push(v)) =~= seq_to_bytes(s) + v.spec_to_bytes());
    } else {
        lemma_seq_to_bytes_push(s.skip(1), v);
        assert(s.push(v).skip(1) =~= s.skip(1).push(v));
        assert(s.push(v)[0] == s[0]);
        assert(seq_to_bytes(s.push(v)) =~= seq_to_bytes(s) + v.spec_to_bytes());
    }
}

/// Sequences of equal length with the same bytes hold the same values: the
/// byte representation of a sequence is one-to-one.
pub proof fn lemma_seq_to_bytes_injective<T: TriviallyTransmutable>(s1: Seq<T>, s2: Seq<T>)
    requires
        s1.len() == s2.len(),
        seq_to_bytes(s1) == seq_to_bytes(s2),
    ensures
        s1 == s2,
    decreases s1.len(),
{
    if s1.len() == 0 {
        assert(s1 =~= s2);
    } else {
        s1[0].to_bytes_len();
        s2[0].to_bytes_len();
        let size = T::spec_size() as int;
        let b1 = s1[0].spec_to_bytes();
        let b2 = s2[0].spec_to_bytes();
        let r1 = seq_to_bytes(s1.skip(1));
        let r2 = seq_to_bytes(s2.skip(1));
        assert(b1 =~= (b1 + r1).take(size));
        assert(b2 =~= (b2 + r2).take(size));
        assert(r1 =~= (b1 + r1).skip(size));
        assert(r2 =~= (b2 + r2).skip(size));
        assert(seq_to_bytes(s1) == b1 + r1);
        assert(seq_to_bytes(s2) == b2 + r2);
        T::to_bytes_injective(s1[0], s2[0]);
        lemma_seq_to_bytes_injective(s1.skip(1), s2.skip(1));
        assert forall|i: int| 0 <= i < s1.len() implies s1[i] == s2[i] by {
            if i > 0 {
                assert(s1[i] == s1.skip(1)[i - 1]);
                assert(s2[i] == s2.skip(1)[i - 1]);
            }
        }
        assert(s1 =~= s2);
    }
}

/// For bytes themselves, the representation of a sequence is the sequence:
/// each byte stands for itself.
pub proof fn lemma_u8_seq_to_bytes_identity(s: Seq<u8>)
    ensures
        seq_to_bytes(s) == s,
    decreases s.len(),
{
    if s.len() == 0 {
        assert(seq_to_bytes(s) =~= s);
    } else {
        lemma_u8_seq_to_bytes_identity(s.skip(1));
        assert(seq_to_bytes(s) =~= s);
    }
}

/// Read `count` values out of the leading `count * T::spec_size()` bytes of
/// `bytes`, one value per size-of-`T` chunk.
pub(crate) fn read_values<T: TriviallyTransmutable>(bytes: &[u8], count: usize) -> (r: Vec<T>)
    requires
        count * T::spec_size() <= bytes@.len(),
    ensures
        r@.len() == count,
        seq_to_bytes(r@) == bytes@.take((count * T::spec_size()) as int),
{
    proof {
        T::layout_properties();
    }
    let size = T::size();
    let n = bytes.len();
    let mut out: Vec<T> = Vec::new();
    let mut i: usize = 0;
    proof {
        assert(out@.len() == 0);
        assert(seq_to_bytes(out@) =~= bytes@.take(0));
    }
    while i < count
        invariant
            i <= count,
            count * T::spec_size() <= bytes@.len(),
            n == bytes@.len(),
            size == T::spec_size(),
            size >= 1,
            out@.len() == i,
            seq_to_bytes(out@) == bytes@.take((i * T::spec_size()) as int),
        decreases count - i,
    {
        proof {
            lemma_mul_inequality(i as int + 1, count as int, size as int);
            lemma_mul_is_distributive_add_other_way(size as int, i as int, 1);
            assert(i * size + size <= bytes@.len());
        }
        let start = i * size;
        let chunk = slice_subrange(bytes, start, start + size);
        let v = T::from_bytes(chunk);
        let ghost prev = out@;
        out.push(v);
        proof {
            lemma_seq_to_bytes_push(prev, v);
            assert(bytes@.take((i * size + size) as int) =~= bytes@.take((i * size) as int)
                + bytes@.subrange((i * size) as int, (i * size + size) as int));
        }
        i = i + 1;
    }
    out
}

/// Read one value out of the leading `T::spec_size()` bytes of `bytes`.
pub(crate) fn read_one<T: TriviallyTransmutable>(bytes: &[u8]) -> (r: T)
    requires
        T::spec_size() <= bytes@.len(),
    ensures
        r.spec_to_bytes() == bytes@.take(T::spec_size() as int),
{
    proof {
        T::layout_properties();
    }
    let size = T::size();
    let chunk = slice_subrange(bytes, 0, size);
    let r = T::from_bytes(chunk);
    proof {
        assert(bytes@.take(size as int) =~= bytes@.subrange(0, size as int));
    }
    r
}

/// Write a whole slice of values out as their concatenated bytes.
pub(crate) fn write_values<T: TriviallyTransmutable>(values: &[T]) -> (r: Vec<u8>)
    ensures
        r@ == seq_to_bytes(values@),
{
    let mut out: Vec<u8> = Vec::new();
    let mut i: usize = 0;
    proof {
        assert(values@.take(0) =~= Seq::<T>::empty());
        assert(out@ =~= seq_to_bytes(values@.take(0)));
    }
    let n = values.len();
    while i < n
        invariant
            i <= n,
            n == values@.len(),
            out@ == seq_to_bytes(values@.take(i as int)),
        decreases n - i,
    {
        let v = *slice_index_get(values, i);
        let mut piece = v.to_bytes();
        let ghost prev = out@;
        out.append(&mut piece);
        proof {
            assert(values@.take(i as int + 1) =~= values@.take(i as int).push(values@[i as int]));
            lemma_seq_to_bytes_push(values@.take(i as int), values@[i as int]);
        }
        i = i + 1;
    }
    proof {
        assert(values@.take(n as int) =~= values@);
    }
    out
}

/// The count of whole values of `T` that fit in `len` bytes; what remains
/// is the trailing fragment that every permissive conversion discards.
pub(crate) fn leading_count<T: TriviallyTransmutable>(len: usize) -> (r: usize)
    ensures
        r == len as nat / T::spec_size(),
        r * T::spec_size() <= len,
{
    proof {
        T::layout_properties();
    }
    let size = T::size();
    let count = len / size;
    proof {
        lemma_fundamental_div_mod(len as int, size as int);
    }
    count
}

} // verus!
