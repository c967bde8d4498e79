use safe_transmute::align::check_alignment;
use safe_transmute::error::{Error, UnalignedError};
use safe_transmute::guard::SingleManyGuard;
use safe_transmute::{transmute_many, transmute_to_bytes};

#[test]
fn smoke_check_alignment_from_4() {
    // A buffer at a four-byte-aligned address conforms to every type whose
    // alignment divides four.
    let x: [i32; 5] = [0x5555_5555; 5];
    let addr: usize = 4 * 1000;
    assert_eq!(check_alignment::<i32, u8>(&x[..], addr), Ok(()));
    assert_eq!(check_alignment::<i32, i8>(&x[..], addr), Ok(()));
    assert_eq!(check_alignment::<i32, u16>(&x[..], addr), Ok(()));
    assert_eq!(check_alignment::<i32, i16>(&x[..], addr), Ok(()));
    assert_eq!(check_alignment::<i32, u32>(&x[..], addr), Ok(()));
}

#[test]
fn smoke_check_alignment_from_8() {
    let x: [i64; 5] = [0x5555_5555_5555_5555; 5];
    let addr: usize = 8 * 1000;
    assert_eq!(check_alignment::<i64, u8>(&x[..], addr), Ok(()));
    assert_eq!(check_alignment::<i64, i8>(&x[..], addr), Ok(()));
    assert_eq!(check_alignment::<i64, u16>(&x[..], addr), Ok(()));
    assert_eq!(check_alignment::<i64, i16>(&x[..], addr), Ok(()));
    assert_eq!(check_alignment::<i64, u32>(&x[..], addr), Ok(()));
    assert_eq!(check_alignment::<i64, i32>(&x[..], addr), Ok(()));
    assert_eq!(check_alignment::<i64, u64>(&x[..], addr), Ok(()));
}

#[test]
fn check_alignment_offsets() {
    let data: [u8; 8] = [0; 8];
    // For a two-byte alignment, an odd address is off by one.
    let r = check_alignment::<u8, u16>(&data[..], 1001);
    assert_eq!(r, Err(UnalignedError::new(1, &data[..])));
    // For an eight-byte alignment, the discard count complements the
    // remainder.
    for rem in 1..8usize {
        let r = check_alignment::<u8, u64>(&data[..], 8 * 300 + rem);
        assert_eq!(r, Err(UnalignedError::new(8 - rem, &data[..])));
    }
}

#[test]
fn unaligned_slicing_integers() {
    let base: usize = 1 << 20;
    let words: [u16; 6] = [0x01FF, 0x02EE, 0x03DD, 0x04CC, 0x05BB, 0x06AA];
    let bytes = transmute_to_bytes(&words[..]);

    assert_eq!(
        transmute_many::<u16, SingleManyGuard>(&bytes, base),
        Ok(words.to_vec())
    );
    assert_eq!(
        transmute_many::<u16, SingleManyGuard>(&bytes[1..], base + 1),
        Err(Error::Unaligned(UnalignedError::new(1, &bytes[1..])))
    );
    assert_eq!(
        transmute_many::<u16, SingleManyGuard>(&bytes[2..], base + 2),
        Ok(words[1..].to_vec())
    );
    assert_eq!(
        transmute_many::<u16, SingleManyGuard>(&bytes[3..], base + 3),
        Err(Error::Unaligned(UnalignedError::new(1, &bytes[3..])))
    );

    let words: [u32; 3] = [0x02EE01FF, 0x04CC03DD, 0x06AA05BB];
    let bytes = transmute_to_bytes(&words[..]);

    assert_eq!(
        transmute_many::<u32, SingleManyGuard>(&bytes, base),
        Ok(words.to_vec())
    );
    assert_eq!(
        transmute_many::<u32, SingleManyGuard>(&bytes[1..], base + 1),
        Err(Error::Unaligned(UnalignedError::new(3, &bytes[1..])))
    );
    assert_eq!(
        transmute_many::<u32, SingleManyGuard>(&bytes[2..], base + 2),
        Err(Error::Unaligned(UnalignedError::new(2, &bytes[2..])))
    );
    assert_eq!(
        transmute_many::<u32, SingleManyGuard>(&bytes[3..], base + 3),
        Err(Error::Unaligned(UnalignedError::new(1, &bytes[3..])))
    );
    assert_eq!(
        transmute_many::<u32, SingleManyGuard>(&bytes[4..], base + 4),
        Ok(words[1..].to_vec())
    );
    assert_eq!(
        transmute_many::<u32, SingleManyGuard>(&bytes[5..], base + 5),
        Err(Error::Unaligned(UnalignedError::new(3, &bytes[5..])))
    );

    // Two words, so that every slicing below still holds one whole value
    // and the boundary guard passes; only the address is at fault.
    let words: [u64; 2] = [0x02EE01FF_04CC03DD, 0x06AA05BB_08889999];
    let bytes = transmute_to_bytes(&words[..]);
    assert_eq!(
        transmute_many::<u64, SingleManyGuard>(&bytes, base),
        Ok(words.to_vec())
    );
    for i in 1..8usize {
        assert_eq!(
            transmute_many::<u64, SingleManyGuard>(&bytes[i..], base + i),
            Err(Error::Unaligned(UnalignedError::new(8 - i, &bytes[i..])))
        );
    }
}
