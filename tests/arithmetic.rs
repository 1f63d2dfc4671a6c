use varuint::width::mask_to;
use varuint::{Error, Intern, InternHelper, U48, VarUInt, max_mask, storage_for};

#[test]
fn storage_for_picks_smallest_native_word() {
    assert_eq!(storage_for(0), None);
    assert_eq!(storage_for(1), Some(8));
    assert_eq!(storage_for(8), Some(8));
    assert_eq!(storage_for(9), Some(16));
    assert_eq!(storage_for(16), Some(16));
    assert_eq!(storage_for(17), Some(32));
    assert_eq!(storage_for(33), Some(64));
    assert_eq!(storage_for(48), Some(64));
    assert_eq!(storage_for(65), Some(128));
    assert_eq!(storage_for(128), Some(128));
    assert_eq!(storage_for(129), None);
    assert_eq!(storage_for(255), None);
}

#[test]
fn max_mask_has_exactly_n_low_bits() {
    assert_eq!(max_mask(1), 1);
    assert_eq!(max_mask(6), 0x3F);
    assert_eq!(max_mask(8), 0xFF);
    assert_eq!(max_mask(37), 0x1F_FFFF_FFFF);
    assert_eq!(max_mask(48), 0xFFFF_FFFF_FFFF);
    assert_eq!(max_mask(64), u64::MAX as u128);
    assert_eq!(max_mask(127), u128::MAX >> 1);
    assert_eq!(max_mask(128), u128::MAX);
}

#[test]
fn descriptor_reports_width_storage_and_bounds() {
    assert_eq!(InternHelper::<37>::bits(), 37);
    assert_eq!(InternHelper::<37>::storage_bits(), 64);
    assert_eq!(InternHelper::<37>::min(), 0);
    assert_eq!(InternHelper::<37>::max(), 0x1F_FFFF_FFFF);
    assert_eq!(InternHelper::<37>::zero(), 0u64);
    assert_eq!(InternHelper::<37>::one(), 1u64);
    assert_eq!(InternHelper::<5>::storage_bits(), 8);
    assert_eq!(InternHelper::<5>::max(), 31u8);
    assert_eq!(InternHelper::<128>::max(), u128::MAX);
    assert_eq!(VarUInt::<37>::bits(), 37);
}

#[test]
fn named_constants() {
    assert_eq!(VarUInt::<6>::min_value().to_native::<u8>(), 0);
    assert_eq!(VarUInt::<6>::max_value().to_native::<u8>(), 63);
    assert_eq!(VarUInt::<6>::zero().to_native::<u8>(), 0);
    assert_eq!(VarUInt::<6>::one().to_native::<u8>(), 1);
    assert_eq!(VarUInt::<128>::max_value().to_native::<u128>(), u128::MAX);
    assert!(VarUInt::<12>::default() == VarUInt::<12>::zero());
}

#[test]
fn max_plus_one_wraps_to_zero() {
    assert!(VarUInt::<1>::max_value() + VarUInt::<1>::one() == VarUInt::<1>::zero());
    assert!(VarUInt::<7>::max_value() + VarUInt::<7>::one() == VarUInt::<7>::zero());
    assert!(VarUInt::<8>::max_value() + VarUInt::<8>::one() == VarUInt::<8>::zero());
    assert!(VarUInt::<48>::max_value() + VarUInt::<48>::one() == VarUInt::<48>::zero());
    assert!(VarUInt::<64>::max_value() + VarUInt::<64>::one() == VarUInt::<64>::zero());
    assert!(VarUInt::<128>::max_value() + VarUInt::<128>::one() == VarUInt::<128>::zero());
}

#[test]
fn addition_commutes() {
    let a = VarUInt::<5>::from_native(27u8);
    let b = VarUInt::<5>::from_native(9u8);
    assert!(a + b == b + a);
    assert_eq!((a + b).to_native::<u8>(), 4);
}

#[test]
fn zero_minus_one_wraps_to_max() {
    assert!(VarUInt::<1>::zero() - VarUInt::<1>::one() == VarUInt::<1>::max_value());
    assert!(VarUInt::<13>::zero() - VarUInt::<13>::one() == VarUInt::<13>::max_value());
    assert!(VarUInt::<64>::zero() - VarUInt::<64>::one() == VarUInt::<64>::max_value());
    assert!(VarUInt::<128>::zero() - VarUInt::<128>::one() == VarUInt::<128>::max_value());
    let a = VarUInt::<8>::from_native(3u8);
    let b = VarUInt::<8>::from_native(5u8);
    assert_eq!((a - b).to_native::<u8>(), 254);
}

#[test]
fn multiplication_wraps() {
    let a = VarUInt::<4>::from_native(7u8).try_resize::<4>().unwrap();
    let b = VarUInt::<4>::try_from_native(5u8).unwrap();
    assert_eq!((a * b).to_native::<u8>(), 3);
    let big = VarUInt::<128>::from_native(u128::MAX);
    assert!(big * big == VarUInt::<128>::one());
}

#[test]
fn division_and_remainder() {
    let a = VarUInt::<10>::try_from_native(1000u16).unwrap();
    let b = VarUInt::<10>::try_from_native(7u16).unwrap();
    assert_eq!((a / b).to_native::<u16>(), 142);
    assert_eq!((a % b).to_native::<u16>(), 6);
}

#[test]
fn bitwise_operators() {
    let a = VarUInt::<6>::try_from_native(0b101100u8).unwrap();
    let b = VarUInt::<6>::try_from_native(0b011010u8).unwrap();
    assert_eq!((a & b).to_native::<u8>(), 0b001000);
    assert_eq!((a | b).to_native::<u8>(), 0b111110);
    assert_eq!((a ^ b).to_native::<u8>(), 0b110110);
    assert_eq!((!a).to_native::<u8>(), 0b010011);
}

#[test]
fn not_twice_gives_value_back() {
    for v in [0u8, 1, 42, 100, 127] {
        let x = VarUInt::<7>::try_from_native(v).unwrap();
        assert!(!(!x) == x);
        assert_eq!((!x).to_native::<u8>(), 127 - v);
    }
    let y = VarUInt::<128>::from_native(12345u64);
    assert!(!(!y) == y);
}

#[test]
fn shl_by_width_clears_everything() {
    let v = VarUInt::<8>::from_native(0xFFu8);
    assert!(v << 8usize == VarUInt::<8>::zero());
    assert!(v << 200usize == VarUInt::<8>::zero());
    assert_eq!((v << 4usize).to_native::<u8>(), 0xF0);
    let w = VarUInt::<13>::max_value();
    assert!(w << 13usize == VarUInt::<13>::zero());
    assert_eq!((w << 12usize).to_native::<u16>(), 0x1000);
}

#[test]
fn shifts_by_same_width_value() {
    let v = VarUInt::<12>::try_from_native(0xABCu16).unwrap();
    let four = VarUInt::<12>::from_native(4u8);
    assert_eq!((v << four).to_native::<u16>(), 0xBC0);
    assert_eq!((v >> four).to_native::<u16>(), 0xAB);
    let twelve = VarUInt::<12>::from_native(12u8);
    assert!(v >> twelve == VarUInt::<12>::zero());
    assert!(v >> 40usize == VarUInt::<12>::zero());
}

#[test]
fn compound_assignment_matches_operators() {
    let a = VarUInt::<9>::try_from_native(300u16).unwrap();
    let b = VarUInt::<9>::try_from_native(400u16).unwrap();
    let mut x = a;
    x += b;
    assert!(x == a + b);
    x -= b;
    assert!(x == a);
    x *= b;
    assert!(x == a * b);
    x /= b;
    assert!(x == (a * b) / b);
    x %= b;
    x |= b;
    x &= a;
    x ^= b;
    let y = (((((a * b) / b) % b) | b) & a) ^ b;
    assert!(x == y);
    x <<= 3usize;
    x >>= 1usize;
    assert!(x == (y << 3usize) >> 1usize);
    let mut z = a;
    z <<= VarUInt::<9>::one();
    z >>= VarUInt::<9>::one();
    assert!(z == (a << VarUInt::<9>::one()) >> VarUInt::<9>::one());
}

#[test]
fn ordering_and_native_comparison() {
    let a = VarUInt::<20>::try_from_native(70000u32).unwrap();
    let b = VarUInt::<20>::try_from_native(70001u32).unwrap();
    assert!(a < b);
    assert!(b > a);
    assert!(a != b);
    assert!(a.eq_native(70000u32));
    assert!(a.eq_native(70000u128));
    assert!(!a.eq_native(7u8));
    assert_eq!(a.cmp_native(5u8), std::cmp::Ordering::Greater);
    assert_eq!(a.cmp_native(70001u64), std::cmp::Ordering::Less);
    assert_eq!(a.cmp_native(70000u32), std::cmp::Ordering::Equal);
}

#[test]
fn decimal_rendering() {
    assert_eq!(VarUInt::<48>::from_native(120u8).to_string(), "120");
    assert_eq!(VarUInt::<3>::zero().to_string(), "0");
    assert_eq!(
        VarUInt::<128>::max_value().to_string(),
        "340282366920938463463374607431768211455"
    );
    assert_eq!(U48::max_value().to_string(), "281474976710655");
}

#[test]
fn error_value_too_big() {
    assert_eq!(VarUInt::<8>::try_from_native(256u16).unwrap_err(), Error::ValueTooBig);
}

#[test]
fn masking_keeps_low_bits_only() {
    assert_eq!(mask_to(0x1FF, 8), 0xFF);
    assert_eq!(mask_to(0b1011_0110, 3), 0b110);
    assert_eq!(mask_to(u128::MAX, 127), u128::MAX >> 1);
    assert_eq!(mask_to(u128::MAX, 128), u128::MAX);
}
