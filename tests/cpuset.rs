use scheduler::CpuSet;
use std::ops::BitXor;

const MASK_BITS: usize = 64;

#[test]
fn test_new_one_byte() {
    let mut cpuset = CpuSet::new(7);
    assert_eq!(MASK_BITS / 8, cpuset.len());
    assert_eq!(0, cpuset.as_u64().unwrap());
    cpuset = CpuSet::new(1);
    assert_eq!(MASK_BITS / 8, cpuset.len());
    assert_eq!(0, cpuset.as_u64().unwrap());
    cpuset = CpuSet::new(0);
    assert_eq!(MASK_BITS / 8, cpuset.len());
    assert_eq!(0, cpuset.as_u64().unwrap());
}

#[test]
fn test_new_many_bytes() {
    let cpuset = CpuSet::new(125);
    assert_eq!(16, cpuset.len());
}

#[test]
fn test_from_mask_u8() {
    let cpuset = CpuSet::from_mask(0x3 as u8);
    assert_eq!(3, cpuset.as_u64().unwrap());
}

#[test]
fn test_from_mask_u64() {
    let mask: u64 = 1 << 60;
    let cpuset = CpuSet::from_mask::<u64>(mask);
    assert_eq!(8, cpuset.len());
    assert_eq!(mask, cpuset.as_u64().unwrap());
}

#[test]
fn test_single_low() {
    let mask: u64 = 1 << 3;
    let cpuset = CpuSet::single(3);
    assert_eq!(MASK_BITS / 8, cpuset.len());
    assert_eq!(mask, cpuset.as_u64().unwrap());
}

#[test]
fn test_single_high() {
    let cpuset = CpuSet::single(29);
    println!("vafan: {}", cpuset.as_u64().unwrap());
    for i in 0..MASK_BITS {
        println!("i: {}", i);
        assert!(cpuset.is_set(i).bitxor(i != 29));
    }
}

#[test]
fn test_set_and_is_set() {
    let max = 100;
    let mut cpuset = CpuSet::new(max);
    for i in 0..max {
        for j in 0..max {
            assert!(cpuset.is_set(j).bitxor(j >= i));
        }
        cpuset.set(i);
    }
    for i in 0..max {
        assert!(cpuset.is_set(i));
    }
}

#[test]
fn test_clear_and_is_set() {
    let mut cpuset = CpuSet::from_mask(u64::MAX);
    let max = 64;
    for i in 0..max {
        for j in 0..max {
            assert!(cpuset.is_set(j).bitxor(j < i));
        }
        cpuset.clear(i);
    }
    for i in 0..max {
        assert!(!cpuset.is_set(i));
    }
}

#[test]
fn test_is_set_too_large() {
    let cpuset = CpuSet::from_mask(0b11111111);
    assert!(!cpuset.is_set(9));
    assert!(!cpuset.is_set(10000));
}

#[test]
fn test_as_u64_too_large_set() {
    let cpuset = CpuSet::new(80);
    assert!(cpuset.as_u64().is_err());
}

#[test]
fn test_as_u64() {
    let mask: u16 = 0xf0ac;
    let cpuset = CpuSet::from_mask::<u16>(mask);
    assert_eq!(mask as u64, cpuset.as_u64().unwrap());
}

#[test]
fn sized_byte_lengths() {
    assert_eq!(8, CpuSet::new(0).len());
    assert_eq!(8, CpuSet::new(64).len());
    assert_eq!(16, CpuSet::new(65).len());
    assert_eq!(16, CpuSet::new(128).len());
    assert_eq!(24, CpuSet::new(129).len());
}

#[test]
fn round_trip_each_width() {
    assert_eq!(0xa5, CpuSet::from_mask(0xa5u8).as_u64().unwrap());
    assert_eq!(0xbeef, CpuSet::from_mask(0xbeefu16).as_u64().unwrap());
    assert_eq!(0xdead_beef, CpuSet::from_mask(0xdead_beefu32).as_u64().unwrap());
    let v: u64 = 0x0123_4567_89ab_cdef;
    assert_eq!(v, CpuSet::from_mask(v).as_u64().unwrap());
    assert_eq!(0xff, CpuSet::from_mask(-1i8).as_u64().unwrap());
    assert_eq!(0xffff_ffff, CpuSet::from_mask(-1i32).as_u64().unwrap());
    assert_eq!(u64::MAX, CpuSet::from_mask(-1i64).as_u64().unwrap());
}

#[test]
fn from_mask_sets_bits_of_the_integer() {
    let cpuset = CpuSet::from_mask(0b1010u8);
    assert_eq!(8, cpuset.len());
    assert!(!cpuset.is_set(0));
    assert!(cpuset.is_set(1));
    assert!(!cpuset.is_set(2));
    assert!(cpuset.is_set(3));
    assert!(!cpuset.is_set(8));
}

#[test]
fn set_grows_across_word_boundary() {
    let mut cpuset = CpuSet::new(63);
    assert_eq!(8, cpuset.len());
    cpuset.set(64);
    assert_eq!(16, cpuset.len());
    assert!(cpuset.is_set(64));
    assert!(!cpuset.is_set(63));
    assert!(!cpuset.is_set(65));
    assert!(cpuset.as_u64().is_err());
}

#[test]
fn set_far_beyond_room() {
    let mut cpuset = CpuSet::new(1);
    cpuset.set(200);
    assert_eq!(32, cpuset.len());
    assert!(cpuset.is_set(200));
    for i in 0..256 {
        assert_eq!(i == 200, cpuset.is_set(i));
    }
}

#[test]
fn is_set_at_exact_word_count() {
    let cpuset = CpuSet::from_mask(u64::MAX);
    assert!(cpuset.is_set(63));
    assert!(!cpuset.is_set(64));
    assert!(!cpuset.is_set(usize::MAX));
}

#[test]
fn clear_beyond_room_does_not_grow() {
    let mut cpuset = CpuSet::from_mask(0b11u8);
    cpuset.clear(64);
    cpuset.clear(10000);
    assert_eq!(8, cpuset.len());
    assert_eq!(0b11, cpuset.as_u64().unwrap());
}

#[test]
fn clear_is_idempotent() {
    let mut cpuset = CpuSet::from_mask(0b101u8);
    cpuset.clear(1);
    assert_eq!(0b101, cpuset.as_u64().unwrap());
    cpuset.clear(0);
    cpuset.clear(0);
    assert_eq!(0b100, cpuset.as_u64().unwrap());
}

#[test]
fn set_prefix_then_read() {
    let k = 70;
    let mut cpuset = CpuSet::new(10);
    for i in 0..k {
        cpuset.set(i);
    }
    for i in 0..k {
        assert!(cpuset.is_set(i));
    }
    for i in k..200 {
        assert!(!cpuset.is_set(i));
    }
}

#[test]
fn single_over_two_words() {
    let cpuset = CpuSet::single(64);
    assert_eq!(16, cpuset.len());
    assert!(cpuset.is_set(64));
    assert!(!cpuset.is_set(0));
    assert_eq!(vec![0u64, 1u64], cpuset.as_words().to_vec());
}

#[test]
fn words_round_trip() {
    let words = CpuSet::single(3).into_words();
    assert_eq!(vec![8u64], words);
    let back = CpuSet::from_words(vec![1u64, 2u64]).unwrap();
    assert!(back.is_set(0));
    assert!(back.is_set(65));
    assert_eq!(16, back.len());
    assert!(CpuSet::from_words(Vec::new()).is_none());
}
