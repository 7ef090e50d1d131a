use win_memory::{MemoryError, MemoryImage, MemoryValue};

fn image(base: usize, bytes: &[u8]) -> MemoryImage {
    MemoryImage::new(base, bytes.to_vec()).unwrap()
}

#[test]
fn u32_is_little_endian() {
    assert_eq!(u32::from_bytes(&[0x78, 0x56, 0x34, 0x12]), 0x1234_5678);
    assert_eq!(0x1234_5678u32.to_bytes(), vec![0x78, 0x56, 0x34, 0x12]);
}

#[test]
fn u16_and_u64_are_little_endian() {
    assert_eq!(u16::from_bytes(&[0x34, 0x12]), 0x1234);
    assert_eq!(0xBEEFu16.to_bytes(), vec![0xEF, 0xBE]);
    assert_eq!(
        u64::from_bytes(&[0x08, 0x07, 0x06, 0x05, 0x04, 0x03, 0x02, 0x01]),
        0x0102_0304_0506_0708
    );
    assert_eq!(
        0x0102_0304_0506_0708u64.to_bytes(),
        vec![0x08, 0x07, 0x06, 0x05, 0x04, 0x03, 0x02, 0x01]
    );
}

#[test]
fn i32_uses_twos_complement() {
    assert_eq!(i32::from_bytes(&[0xFF, 0xFF, 0xFF, 0xFF]), -1);
    assert_eq!(i32::from_bytes(&[0x00, 0x00, 0x00, 0x80]), i32::MIN);
    assert_eq!(i32::from_bytes(&[0xFF, 0xFF, 0xFF, 0x7F]), i32::MAX);
    assert_eq!((-2i32).to_bytes(), vec![0xFE, 0xFF, 0xFF, 0xFF]);
    assert_eq!(i32::MIN.to_bytes(), vec![0x00, 0x00, 0x00, 0x80]);
    assert_eq!(7i32.to_bytes(), vec![0x07, 0x00, 0x00, 0x00]);
}

#[test]
fn bool_and_u8_take_one_byte() {
    assert_eq!(<bool as MemoryValue>::size(), 1);
    assert_eq!(<u8 as MemoryValue>::size(), 1);
    assert!(bool::from_bytes(&[1]));
    assert!(bool::from_bytes(&[0x80]));
    assert!(!bool::from_bytes(&[0]));
    assert_eq!(true.to_bytes(), vec![1]);
    assert_eq!(false.to_bytes(), vec![0]);
    assert_eq!(u8::from_bytes(&[0xAB]), 0xAB);
    assert_eq!(0xABu8.to_bytes(), vec![0xAB]);
}

#[test]
fn sizes_of_the_integers() {
    assert_eq!(<u16 as MemoryValue>::size(), 2);
    assert_eq!(<u32 as MemoryValue>::size(), 4);
    assert_eq!(<i32 as MemoryValue>::size(), 4);
    assert_eq!(<u64 as MemoryValue>::size(), 8);
}

#[test]
fn values_survive_encoding() {
    for value in [0u32, 1, 0xFF, 0x100, 0xDEAD_BEEF, u32::MAX] {
        assert_eq!(u32::from_bytes(&value.to_bytes()), value);
    }
    for value in [0u64, 1, 0xFFFF_FFFF, 0x1_0000_0000, u64::MAX] {
        assert_eq!(u64::from_bytes(&value.to_bytes()), value);
    }
    for value in [0i32, 1, -1, i32::MIN, i32::MAX, -123_456] {
        assert_eq!(i32::from_bytes(&value.to_bytes()), value);
    }
    for value in [0u16, 1, 0xFF, 0x100, u16::MAX] {
        assert_eq!(u16::from_bytes(&value.to_bytes()), value);
    }
}

#[test]
fn image_knows_its_range() {
    let memory = image(0x1000, &[1, 2, 3, 4]);
    assert_eq!(memory.base_address(), 0x1000);
    assert_eq!(memory.len(), 4);
    assert_eq!(memory.data(), &[1, 2, 3, 4]);
    assert!(memory.covers(0x1000, 4));
    assert!(memory.covers(0x1003, 1));
    assert!(memory.covers(0x1004, 0));
    assert!(!memory.covers(0x1003, 2));
    assert!(!memory.covers(0x0FFF, 1));
    assert!(!memory.covers(usize::MAX, 2));
}

#[test]
fn image_beyond_the_address_space_is_refused() {
    assert!(matches!(
        MemoryImage::new(usize::MAX, vec![0, 0]),
        Err(MemoryError::AddressOutOfBounds)
    ));
    assert!(MemoryImage::new(usize::MAX, vec![]).is_ok());
    assert!(MemoryImage::new(usize::MAX - 1, vec![7]).is_ok());
}

#[test]
fn read_bytes_gives_all_or_nothing() {
    let memory = image(0x2000, &[10, 20, 30, 40, 50]);
    assert_eq!(memory.read_bytes(0x2001, 3), Ok(vec![20, 30, 40]));
    assert_eq!(memory.read_bytes(0x2000, 5), Ok(vec![10, 20, 30, 40, 50]));
    assert_eq!(memory.read_bytes(0x2005, 0), Ok(vec![]));
    assert_eq!(memory.read_bytes(0x2003, 3), Err(MemoryError::ReadMemoryError));
    assert_eq!(memory.read_bytes(0x1FFF, 2), Err(MemoryError::ReadMemoryError));
}

#[test]
fn write_bytes_changes_the_run_only() {
    let mut memory = image(0x2000, &[10, 20, 30, 40, 50]);
    assert_eq!(memory.write_bytes(0x2001, &[7, 8]), Ok(()));
    assert_eq!(memory.data(), &[10, 7, 8, 40, 50]);
    assert_eq!(memory.write_bytes(0x2004, &[1, 2]), Err(MemoryError::WriteMemoryError));
    assert_eq!(memory.data(), &[10, 7, 8, 40, 50]);
}

#[test]
fn write_then_read_gives_the_value_back() {
    let mut memory = image(0x4000, &[0xAA; 16]);
    assert_eq!(memory.write::<u32>(0x4004, 0xDEAD_BEEF), Ok(()));
    assert_eq!(memory.read::<u32>(0x4004), Ok(0xDEAD_BEEF));
    assert_eq!(memory.data()[3], 0xAA);
    assert_eq!(memory.data()[8], 0xAA);
    assert_eq!(memory.write::<i32>(0x4008, -5), Ok(()));
    assert_eq!(memory.read::<i32>(0x4008), Ok(-5));
    assert_eq!(memory.write::<u64>(0x4008, 0x1122_3344_5566_7788), Ok(()));
    assert_eq!(memory.read::<u64>(0x4008), Ok(0x1122_3344_5566_7788));
    assert_eq!(memory.write::<bool>(0x4000, true), Ok(()));
    assert_eq!(memory.read::<bool>(0x4000), Ok(true));
    assert_eq!(memory.read::<u32>(0x4004), Ok(0xDEAD_BEEF));
}

#[test]
fn typed_access_outside_the_image_fails() {
    let mut memory = image(0x4000, &[0; 6]);
    assert_eq!(memory.read::<u32>(0x4003), Err(MemoryError::ReadMemoryError));
    assert_eq!(memory.read::<u64>(0x4000), Err(MemoryError::ReadMemoryError));
    assert_eq!(memory.write::<u32>(0x4003, 1), Err(MemoryError::WriteMemoryError));
    assert_eq!(memory.data(), &[0; 6]);
    assert_eq!(memory.read::<u32>(0x4002), Ok(0));
}
