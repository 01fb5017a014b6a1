use pinocchio_util::option::{parse_option, OptionInteger};
use pinocchio_util::UtilError;

#[test]
fn parses_some_unsigned() {
    let bytes = [1, 42, 0, 0, 0];
    let value = parse_option::<u32>(&bytes).unwrap();
    assert_eq!(value, Some(42));
}

#[test]
fn parses_some_signed() {
    let bytes = [1, 0xfe, 0xff];
    let value = parse_option::<i16>(&bytes).unwrap();
    assert_eq!(value, Some(-2));
}

#[test]
fn parses_none() {
    let value = parse_option::<u64>(&[0]).unwrap();
    assert_eq!(value, None);
}

#[test]
fn rejects_invalid_tag() {
    let err = parse_option::<u8>(&[2]).unwrap_err();
    assert_eq!(err, UtilError::InvalidInstructionData);
}

#[test]
fn rejects_missing_tag() {
    let err = parse_option::<u8>(&[]).unwrap_err();
    assert_eq!(err, UtilError::InvalidInstructionData);
}

#[test]
fn rejects_truncated_payload() {
    let err = parse_option::<u64>(&[1, 1, 2, 3]).unwrap_err();
    assert_eq!(err, UtilError::InvalidInstructionData);
}

#[test]
fn documented_examples() {
    let bytes = [1, 42, 0, 0, 0, 0, 0, 0, 0];
    assert_eq!(parse_option::<u64>(&bytes).unwrap(), Some(42));
    assert_eq!(parse_option::<u64>(&[0]).unwrap(), None);
}

#[test]
fn reads_every_width_little_endian() {
    assert_eq!(parse_option::<u8>(&[1, 0xab]).unwrap(), Some(0xab));
    assert_eq!(parse_option::<u16>(&[1, 0x34, 0x12]).unwrap(), Some(0x1234));
    assert_eq!(parse_option::<u32>(&[1, 0x78, 0x56, 0x34, 0x12]).unwrap(), Some(0x1234_5678));
    assert_eq!(
        parse_option::<u64>(&[1, 8, 7, 6, 5, 4, 3, 2, 1]).unwrap(),
        Some(0x0102_0304_0506_0708)
    );
    let mut wide = vec![1u8];
    wide.extend_from_slice(&0x0102_0304_0506_0708_090a_0b0c_0d0e_0f10u128.to_le_bytes());
    assert_eq!(parse_option::<u128>(&wide).unwrap(), Some(0x0102_0304_0506_0708_090a_0b0c_0d0e_0f10));
}

#[test]
fn reads_signed_values_in_twos_complement() {
    assert_eq!(parse_option::<i8>(&[1, 0x80]).unwrap(), Some(-128));
    assert_eq!(parse_option::<i8>(&[1, 0x7f]).unwrap(), Some(127));
    assert_eq!(parse_option::<i32>(&[1, 0xff, 0xff, 0xff, 0xff]).unwrap(), Some(-1));
    assert_eq!(parse_option::<i64>(&[1, 0, 0, 0, 0, 0, 0, 0, 0x80]).unwrap(), Some(i64::MIN));
    let mut wide = vec![1u8];
    wide.extend_from_slice(&(-5i128).to_le_bytes());
    assert_eq!(parse_option::<i128>(&wide).unwrap(), Some(-5));
    let mut max = vec![1u8];
    max.extend_from_slice(&i128::MAX.to_le_bytes());
    assert_eq!(parse_option::<i128>(&max).unwrap(), Some(i128::MAX));
}

#[test]
fn ignores_bytes_after_the_payload() {
    assert_eq!(parse_option::<u16>(&[1, 5, 0, 9, 9, 9]).unwrap(), Some(5));
    assert_eq!(parse_option::<u16>(&[0, 9, 9]).unwrap(), None);
}

#[test]
fn rejects_each_short_payload() {
    assert_eq!(parse_option::<u128>(&[1; 16]).unwrap_err(), UtilError::InvalidInstructionData);
    assert_eq!(parse_option::<i32>(&[1, 0, 0]).unwrap_err(), UtilError::InvalidInstructionData);
    assert_eq!(parse_option::<u8>(&[1]).unwrap_err(), UtilError::InvalidInstructionData);
    assert_eq!(parse_option::<u8>(&[0xff, 1]).unwrap_err(), UtilError::InvalidInstructionData);
}

#[test]
fn from_le_slice_needs_exact_length() {
    assert_eq!(<u16 as OptionInteger>::from_le_slice(&[1, 2]).unwrap(), 0x0201);
    assert_eq!(<i16 as OptionInteger>::from_le_slice(&[0, 0x80]).unwrap(), i16::MIN);
    assert_eq!(<u32 as OptionInteger>::from_le_slice(&[1, 2]).unwrap_err(), UtilError::InvalidInstructionData);
    assert_eq!(<u8 as OptionInteger>::LEN, 1);
    assert_eq!(<i128 as OptionInteger>::LEN, 16);
}

#[test]
fn reads_back_written_values() {
    for v in [0u16, 1, 255, 256, 0x8000, u16::MAX] {
        let mut bytes = vec![1u8];
        bytes.extend_from_slice(&v.to_le_bytes());
        bytes.push(0xaa);
        assert_eq!(parse_option::<u16>(&bytes).unwrap(), Some(v));
    }
    for v in [i32::MIN, -1, 0, 1, i32::MAX] {
        let mut bytes = vec![1u8];
        bytes.extend_from_slice(&v.to_le_bytes());
        assert_eq!(parse_option::<i32>(&bytes).unwrap(), Some(v));
    }
    for v in [u64::MAX, 0x0123_4567_89ab_cdef] {
        let mut bytes = vec![1u8];
        bytes.extend_from_slice(&v.to_le_bytes());
        assert_eq!(parse_option::<u64>(&bytes).unwrap(), Some(v));
    }
    assert_eq!(parse_option::<u128>(&[0, 1, 2]).unwrap(), None);
}
