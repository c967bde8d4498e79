use safe_transmute::error::IncompatibleVecTargetError;
use safe_transmute::{transmute_to_bytes_vec, transmute_vec, Error};

#[test]
fn bad_size() {
    assert_eq!(
        transmute_vec::<u16, [u16; 2]>(vec![]),
        Err(Error::IncompatibleVecTarget(IncompatibleVecTargetError::new(vec![])))
    );
    assert_eq!(
        transmute_vec::<u16, [u8; 4]>(vec![1, 2, 3]),
        Err(Error::IncompatibleVecTarget(IncompatibleVecTargetError::new(vec![1, 2, 3])))
    );
}

#[test]
fn just_enough() {
    assert_eq!(
        transmute_vec::<u8, i8>(vec![0x00, 0x01]),
        Ok(vec![0x00i8, 0x01i8])
    );
    assert_eq!(
        transmute_vec::<u16, i16>(vec![0x0100u16, 0x0200u16]),
        Ok(vec![0x0100i16, 0x0200i16])
    );
}

#[test]
fn bad_alignment() {
    // Equal sizes are not enough: the minimum alignments differ.
    assert_eq!(
        transmute_vec::<u16, [u8; 2]>(vec![8, 8, 8]),
        Err(Error::IncompatibleVecTarget(IncompatibleVecTargetError::new(vec![8, 8, 8])))
    );
    assert_eq!(
        transmute_vec::<u64, [u16; 4]>(vec![3, 2, 1]),
        Err(Error::IncompatibleVecTarget(IncompatibleVecTargetError::new(vec![3, 2, 1])))
    );
}

#[test]
fn identical_layout_reinterprets_values() {
    assert_eq!(
        transmute_vec::<u16, i16>(vec![0x0100u16]),
        Ok(vec![0x0100i16])
    );
    assert_eq!(
        transmute_vec::<u16, i16>(vec![0xFFFFu16]),
        Ok(vec![-1i16])
    );
    assert_eq!(
        transmute_vec::<i32, u32>(vec![-1i32, 2]),
        Ok(vec![0xFFFF_FFFFu32, 2])
    );
}

#[test]
fn incompatible_vec_error_copy_truncates() {
    // Three 16-bit words hold six bytes; one whole four-byte target value
    // fits, and the remaining two bytes are discarded by the recovery copy.
    let err = match transmute_vec::<u16, [u8; 4]>(vec![1, 2, 3]) {
        Err(Error::IncompatibleVecTarget(e)) => e,
        other => panic!("expected an incompatible-target error, got {:?}", other),
    };
    assert_eq!(err.vec, vec![1, 2, 3]);
    let copied: Vec<[u8; 4]> = err.copy();
    assert_eq!(copied, vec![[1, 0, 2, 0]]);
}

#[test]
fn incompatible_vec_error_copy_of_empty_is_empty() {
    let err = match transmute_vec::<u16, [u16; 2]>(vec![]) {
        Err(Error::IncompatibleVecTarget(e)) => e,
        other => panic!("expected an incompatible-target error, got {:?}", other),
    };
    let copied: Vec<[u16; 2]> = err.copy();
    assert_eq!(copied, Vec::<[u16; 2]>::new());
}

#[test]
fn to_bytes_vec_of_bytes_succeeds() {
    assert_eq!(
        transmute_to_bytes_vec::<u8>(vec![1, 2, 3]),
        Ok(vec![1, 2, 3])
    );
    assert_eq!(
        transmute_to_bytes_vec::<i8>(vec![-1, 2]),
        Ok(vec![0xFF, 2])
    );
}

#[test]
fn to_bytes_vec_of_wider_type_is_rejected() {
    assert_eq!(
        transmute_to_bytes_vec::<u16>(vec![0x0100]),
        Err(Error::IncompatibleVecTarget(IncompatibleVecTargetError::new(vec![0x0100])))
    );
}

#[test]
fn wide_and_array_layouts() {
    // 128-bit integers share size and alignment with each other alone.
    assert_eq!(
        transmute_vec::<u128, i128>(vec![1u128, u128::MAX]),
        Ok(vec![1i128, -1i128])
    );
    assert_eq!(
        transmute_vec::<u128, u64>(vec![1u128]),
        Err(Error::IncompatibleVecTarget(IncompatibleVecTargetError::new(vec![1u128])))
    );
    // A word array keeps a word's layout; a byte array does not keep a
    // 64-bit value's.
    assert_eq!(
        transmute_vec::<u16, [u16; 1]>(vec![0x0102u16]),
        Ok(vec![[0x0102u16]])
    );
    assert_eq!(
        transmute_vec::<u64, [u8; 8]>(vec![1u64]),
        Err(Error::IncompatibleVecTarget(IncompatibleVecTargetError::new(vec![1u64])))
    );
}
