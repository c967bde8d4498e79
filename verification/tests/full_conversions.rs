use safe_transmute::error::{Error, ErrorReason, GuardError, UnalignedError};
use safe_transmute::guard::SingleManyGuard;
use safe_transmute::{
    transmute_many, transmute_many_pedantic, transmute_many_permissive, transmute_one,
    transmute_one_pedantic, transmute_to_bytes,
};

// Any address that is a multiple of every alignment in use here.
const ALIGNED: usize = 1 << 16;

#[test]
fn many_too_short() {
    assert_eq!(
        transmute_many::<u16, SingleManyGuard>(&transmute_to_bytes::<u16>(&[]), ALIGNED),
        Err(Error::Guard(GuardError {
            required: 16 / 8,
            actual: 0,
            reason: ErrorReason::NotEnoughBytes,
        }))
    );
    assert_eq!(
        transmute_many::<u16, SingleManyGuard>(&transmute_to_bytes::<u16>(&[0])[..1], ALIGNED),
        Err(Error::Guard(GuardError {
            required: 16 / 8,
            actual: 1,
            reason: ErrorReason::NotEnoughBytes,
        }))
    );
}

#[test]
fn many_just_enough() {
    let words: &[u16] = &[0x0100, 0x0200];
    let bytes = transmute_to_bytes(words);
    assert_eq!(
        transmute_many::<u16, SingleManyGuard>(&bytes[..2], ALIGNED),
        Ok(words[..1].to_vec())
    );
    assert_eq!(
        transmute_many::<u16, SingleManyGuard>(&bytes, ALIGNED),
        Ok(words.to_vec())
    );
}

#[test]
fn many_too_much() {
    let words: &[u16] = &[0x0100, 0x0200, 0x0300, 0];
    let bytes = transmute_to_bytes(words);
    assert_eq!(
        transmute_many::<u16, SingleManyGuard>(&bytes[..3], ALIGNED),
        Ok(words[..1].to_vec())
    );
    assert_eq!(
        transmute_many::<u16, SingleManyGuard>(&bytes[..5], ALIGNED),
        Ok(words[..2].to_vec())
    );
    assert_eq!(
        transmute_many::<u16, SingleManyGuard>(&bytes[..7], ALIGNED),
        Ok(words[..3].to_vec())
    );
}

#[test]
fn one_pedantic_too_short() {
    assert_eq!(
        transmute_one_pedantic::<u32>(&transmute_to_bytes::<u32>(&[]), ALIGNED),
        Err(Error::Guard(GuardError {
            required: 32 / 8,
            actual: 0,
            reason: ErrorReason::InexactByteCount,
        }))
    );
    assert_eq!(
        transmute_one_pedantic::<u32>(&transmute_to_bytes::<u32>(&[0])[..1], ALIGNED),
        Err(Error::Guard(GuardError {
            required: 32 / 8,
            actual: 1,
            reason: ErrorReason::InexactByteCount,
        }))
    );
}

#[test]
fn one_pedantic_just_enough() {
    assert_eq!(
        transmute_one_pedantic::<u32>(&transmute_to_bytes::<u32>(&[0x0100_0000]), ALIGNED),
        Ok(0x0100_0000)
    );
}

#[test]
fn one_pedantic_too_much() {
    assert_eq!(
        transmute_one_pedantic::<u32>(&transmute_to_bytes::<u32>(&[0x0100_0000, 0])[..5], ALIGNED),
        Err(Error::Guard(GuardError {
            required: 32 / 8,
            actual: 5,
            reason: ErrorReason::InexactByteCount,
        }))
    );
}

#[test]
fn one_reads_leading_value() {
    let words = [0x0100_B0B0u32, 0];
    let bytes = transmute_to_bytes(&words[..]);
    assert_eq!(transmute_one::<u32>(&bytes, ALIGNED), Ok(0x0100_B0B0));
    assert_eq!(transmute_one::<u32>(&bytes[..5], ALIGNED), Ok(0x0100_B0B0));
    assert_eq!(
        transmute_one::<u32>(&bytes[..3], ALIGNED),
        Err(Error::Guard(GuardError {
            required: 4,
            actual: 3,
            reason: ErrorReason::NotEnoughBytes,
        }))
    );
}

#[test]
fn one_rejects_misaligned_address() {
    let words = [0x0100_B0B0u32];
    let bytes = transmute_to_bytes(&words[..]);
    assert_eq!(
        transmute_one::<u32>(&bytes, ALIGNED + 2),
        Err(Error::Unaligned(UnalignedError::new(2, &bytes[..])))
    );
}

#[test]
fn many_permissive_rounds_down() {
    let bytes: [u8; 5] = [0x00, 0x01, 0x12, 0x24, 0x00];
    assert_eq!(
        transmute_many_permissive::<u16>(&bytes[..], ALIGNED),
        Ok(vec![0x0100, 0x2412])
    );
    assert_eq!(
        transmute_many_permissive::<u16>(&bytes[..1], ALIGNED),
        Ok(vec![])
    );
    assert_eq!(
        transmute_many_permissive::<u16>(&[][..], ALIGNED),
        Ok(vec![])
    );
}

#[test]
fn many_pedantic_exact_multiples_only() {
    let bytes: [u8; 4] = [0x0F, 0x0E, 0x0A, 0x0B];
    assert_eq!(
        transmute_many_pedantic::<u16>(&bytes[..], ALIGNED),
        Ok(vec![0x0E0F, 0x0B0A])
    );
    assert_eq!(
        transmute_many_pedantic::<u16>(&bytes[..3], ALIGNED),
        Err(Error::Guard(GuardError {
            required: 2,
            actual: 3,
            reason: ErrorReason::InexactByteCount,
        }))
    );
    assert_eq!(
        transmute_many_pedantic::<u16>(&bytes[..1], ALIGNED),
        Err(Error::Guard(GuardError {
            required: 2,
            actual: 1,
            reason: ErrorReason::NotEnoughBytes,
        }))
    );
}

#[test]
fn guard_error_takes_precedence_over_alignment() {
    // Both the length and the address are wrong: the boundary guard decides
    // first.
    let bytes: [u8; 1] = [0xAA];
    assert_eq!(
        transmute_many::<u16, SingleManyGuard>(&bytes[..], ALIGNED + 1),
        Err(Error::Guard(GuardError {
            required: 2,
            actual: 1,
            reason: ErrorReason::NotEnoughBytes,
        }))
    );
}

#[test]
fn byte_view_of_seven_bytes_as_words() {
    // Seven bytes seen as 16-bit words: aligned, they decode in pairs with
    // the trailing byte ignored; shifted by one, the odd address is
    // reported with a one-byte discard count.
    let bytes: [u8; 7] = [0xFF, 0x01, 0xEE, 0x02, 0xDD, 0x03, 0xCC];
    assert_eq!(
        transmute_many::<u16, SingleManyGuard>(&bytes[1..], ALIGNED + 1),
        Err(Error::Unaligned(UnalignedError::new(1, &bytes[1..])))
    );
    assert_eq!(
        transmute_many::<u16, SingleManyGuard>(&bytes[2..], ALIGNED + 2),
        Ok(vec![0x02EE, 0x03DD])
    );
    assert_eq!(
        transmute_many::<u16, SingleManyGuard>(&bytes[..], ALIGNED),
        Ok(vec![0x01FF, 0x02EE, 0x03DD])
    );
}
