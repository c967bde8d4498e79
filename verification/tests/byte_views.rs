use safe_transmute::{
    guarded_transmute_to_bytes_pod_many, transmute_many_permissive, transmute_one_to_bytes,
    transmute_to_bytes,
};

const ALIGNED: usize = 1 << 16;

#[test]
fn one_to_bytes_writes_the_representation() {
    assert_eq!(transmute_one_to_bytes(&0x0123_4567u32), vec![0x67, 0x45, 0x23, 0x01]);
    assert_eq!(transmute_one_to_bytes(&0x0123u16), vec![0x23, 0x01]);
    assert_eq!(transmute_one_to_bytes(&0x42u8), vec![0x42]);
    assert_eq!(transmute_one_to_bytes(&-1i16), vec![0xFF, 0xFF]);
    assert_eq!(transmute_one_to_bytes(&[0x42u8, 0x69u8]), vec![0x42, 0x69]);
}

#[test]
fn many_to_bytes_concatenates() {
    assert_eq!(
        transmute_to_bytes(&[0x0123u16, 0x4567u16]),
        vec![0x23, 0x01, 0x67, 0x45]
    );
    assert_eq!(transmute_to_bytes::<u16>(&[]), vec![]);
    assert_eq!(
        transmute_to_bytes(&[[0x42u8, 0x69u8], [0x12u8, 0x48u8]]),
        vec![0x42, 0x69, 0x12, 0x48]
    );
}

#[test]
fn pod_to_bytes_matches_current_name() {
    assert_eq!(
        guarded_transmute_to_bytes_pod_many(&[0x0123u16, 0x4567u16]),
        vec![0x23, 0x01, 0x67, 0x45]
    );
}

#[test]
fn round_trip_whole_values() {
    // Values to bytes and back, under the permissive policy: every whole
    // value returns unchanged.
    let values: Vec<u32> = vec![0, 1, 0xDEAD_BEEF, u32::MAX, 7];
    let bytes = transmute_to_bytes(&values);
    assert_eq!(
        transmute_many_permissive::<u32>(&bytes, ALIGNED),
        Ok(values)
    );

    let words: Vec<i16> = vec![-1, 0, i16::MIN, i16::MAX];
    let bytes = transmute_to_bytes(&words);
    assert_eq!(
        transmute_many_permissive::<i16>(&bytes, ALIGNED),
        Ok(words)
    );
}

#[test]
fn round_trip_wide_values() {
    let values: Vec<u128> = vec![0, 1, u128::MAX, 0x0123_4567_89AB_CDEF_0011_2233_4455_6677];
    let bytes = transmute_to_bytes(&values);
    assert_eq!(bytes.len(), 64);
    assert_eq!(
        transmute_many_permissive::<u128>(&bytes, ALIGNED),
        Ok(values)
    );
    let values: Vec<i128> = vec![-1, i128::MIN, i128::MAX];
    let bytes = transmute_to_bytes(&values);
    assert_eq!(
        transmute_many_permissive::<i128>(&bytes, ALIGNED),
        Ok(values)
    );
    let values: Vec<[u8; 3]> = vec![[1, 2, 3], [4, 5, 6]];
    let bytes = transmute_to_bytes(&values);
    assert_eq!(bytes, vec![1, 2, 3, 4, 5, 6]);
    assert_eq!(
        transmute_many_permissive::<[u8; 3]>(&bytes, ALIGNED),
        Ok(values)
    );
    assert_eq!(transmute_one_to_bytes(&[9u8]), vec![9]);
}

#[test]
fn round_trip_truncates_to_whole_values() {
    // With a trailing fragment appended, the round trip reproduces exactly
    // the whole-value prefix.
    let values: Vec<u16> = vec![0x0102, 0x0304];
    let mut bytes = transmute_to_bytes(&values);
    bytes.push(0xEE);
    assert_eq!(
        transmute_many_permissive::<u16>(&bytes, ALIGNED),
        Ok(values)
    );
}
