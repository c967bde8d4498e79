//! Checked reinterpretation of byte buffers as values of other types.
//!
//! Reading a buffer of bytes as a sequence of typed values can go wrong in
//! three ways: the buffer can be too short (or oddly sized) for the target
//! type, the buffer can sit at an address that the target type's alignment
//! forbids, and the bytes can form a bit pattern that is not a value of the
//! target type at all.  This crate checks all three conditions up front and
//! reports each failure as a typed, recoverable error instead of giving
//! callers an undefined view of memory.
//!
//! The crate is organised as follows:
//!
//! - [`guard`] holds the boundary-checking policies: each policy decides,
//!   from a buffer length and an element size alone, whether a request is
//!   acceptable.
//! - [`align`] computes whether a buffer's start address satisfies a target
//!   type's alignment and, if not, how many leading bytes must be discarded.
//! - [`trivial`] introduces [`TriviallyTransmutable`], the capability of a
//!   type to accept every bit pattern of its size, stated as an exact
//!   correspondence between values and their byte representations.
//! - [`error`] defines the closed error taxonomy; the alignment and vector
//!   errors carry the rejected data so the caller can recover by copying.
//! - [`base`] holds the boundary-checked conversions that are unaware of
//!   placement in memory.
//! - The crate root re-exports the placement-aware conversions, which chain
//!   a boundary guard, the alignment check, and the byte decoding.
//! - [`to_bytes`] goes the other way, from typed values to their bytes,
//!   which needs no checks at all.
//! - [`bool`] layers a value check on top: a byte is a boolean only if it
//!   is zero or one, so these readers reject other bytes instead of trusting
//!   the buffer.
//! - [`util`] holds the recovery combinator and the signalling-NaN bit
//!   fixups.
//!
//! Every conversion here produces freshly owned values built byte by byte;
//! a buffer is never reinterpreted in place.  This trades the zero-copy
//! ideal for conversions whose behaviour is stated and machine-checked, and
//! it is why the placement-aware functions take the buffer's address as an
//! explicit argument: verified code cannot observe where a slice lives, so
//! the caller, who can, supplies it.

mod full;

pub mod align;
pub mod base;
pub mod bool;
pub mod error;
pub mod guard;
pub mod pod;
pub mod to_bytes;
pub mod trivial;
pub mod util;

pub use crate::error::{Error, ErrorReason, GuardError, IncompatibleVecTargetError, UnalignedError};
pub use crate::full::{
    transmute_many, transmute_many_pedantic, transmute_many_permissive, transmute_one,
    transmute_one_pedantic, transmute_vec,
};
pub use crate::guard::{
    AllOrNothingGuard, Guard, PedanticGuard, PermissiveGuard, SingleManyGuard, SingleValueGuard,
};
pub use crate::pod::PodTransmutable;
pub use crate::to_bytes::{
    guarded_transmute_to_bytes_pod_many, transmute_one_to_bytes, transmute_to_bytes,
    transmute_to_bytes_vec,
};
pub use crate::trivial::TriviallyTransmutable;

pub use crate::bool::{
    bytes_are_bool, guarded_transmute_bool_pedantic, guarded_transmute_bool_permissive,
    guarded_transmute_bool_vec_pedantic, guarded_transmute_bool_vec_permissive,
    safe_transmute_bool_pedantic, safe_transmute_bool_permissive,
    safe_transmute_bool_vec_pedantic, safe_transmute_bool_vec_permissive,
};
