use ganzhe::endian::{BeU16, BeU32, LeU16, LeU64, NeU16, BeI32, LeIsize};

#[test]
fn test_endian() {
    let v = BeU16::new(10);
    assert_eq!(*v.inner(), 10u16.to_be());
    assert_eq!(u16::from(v), 10u16);
    let x = NeU16::new(10);
    assert_eq!(v, x);
}

#[test]
fn endian_roundtrips() {
    assert_eq!(u32::from(BeU32::new(0x0102_0304)), 0x0102_0304);
    assert_eq!(u16::from(LeU16::new(0xabcd)), 0xabcd);
    assert_eq!(u64::from(LeU64::new(u64::MAX - 5)), u64::MAX - 5);
    assert_eq!(i32::from(BeI32::new(-77)), -77);
    assert_eq!(isize::from(LeIsize::new(-3)), -3);
}

#[test]
fn endian_memory_order() {
    let v = BeU32::new(0x0102_0304);
    assert_eq!(v.inner().to_ne_bytes(), [1, 2, 3, 4]);
    let l = LeU16::new(0x0102);
    assert_eq!(l.inner().to_ne_bytes(), [2, 1]);
    let mut m = BeU16::new(1);
    *m.inner_mut() = 0x0100u16.to_be();
    assert_eq!(u16::from(m), 0x0100);
    let from_into: BeU16 = 7u16.into();
    assert_eq!(from_into, BeU16::new(7));
}
