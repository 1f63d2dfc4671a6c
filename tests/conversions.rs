use varuint::{Error, U48, VarUInt};

#[test]
fn widen_then_narrow_back_round_trips() {
    for v in [0u8, 1, 17, 31] {
        let x = VarUInt::<5>::try_from_native(v).unwrap();
        let back = x.widen::<40>().try_resize::<5>().unwrap();
        assert!(back == x);
        let back = x.widen::<128>().try_resize::<5>().unwrap();
        assert!(back == x);
    }
    let m = VarUInt::<64>::max_value();
    assert!(m.widen::<65>().try_resize::<64>().unwrap() == m);
}

#[test]
fn narrowing_from_native_refuses_too_big() {
    assert_eq!(VarUInt::<1>::try_from_native(2u8).unwrap_err(), Error::ValueTooBig);
    assert_eq!(VarUInt::<7>::try_from_native(128u8).unwrap_err(), Error::ValueTooBig);
    assert_eq!(VarUInt::<48>::try_from_native(1u64 << 48).unwrap_err(), Error::ValueTooBig);
    assert_eq!(VarUInt::<100>::try_from_native(u128::MAX).unwrap_err(), Error::ValueTooBig);
    assert!(VarUInt::<7>::try_from_native(127u8).unwrap().eq_native(127u8));
    assert!(VarUInt::<48>::try_from_native((1u64 << 48) - 1).unwrap() == U48::max_value());
}

#[test]
fn conversion_matrix_symmetry() {
    let small = VarUInt::<12>::max_value();
    let wide = small.widen::<30>();
    assert!(wide.eq_native(4095u16));
    assert!(wide.try_resize::<12>().unwrap() == small);
    let over = VarUInt::<30>::try_from_native(4096u16).unwrap();
    assert_eq!(over.try_resize::<12>().unwrap_err(), Error::ValueTooBig);
    let at_edge = VarUInt::<30>::try_from_native(4095u16).unwrap();
    assert!(at_edge.try_resize::<12>().unwrap() == small);
}

#[test]
fn to_native_checks_range() {
    let v = VarUInt::<16>::try_from_native(300u16).unwrap();
    assert_eq!(v.try_to_native::<u8>().unwrap_err(), Error::ValueTooBig);
    assert_eq!(v.try_to_native::<u16>().unwrap(), 300);
    assert_eq!(v.to_native::<u32>(), 300);
    let w = VarUInt::<16>::try_from_native(255u16).unwrap();
    assert_eq!(w.try_to_native::<u8>().unwrap(), 255);
}

#[test]
fn promoted_byte_shifted_into_top_bit() {
    let x: u32 = (VarUInt::<32>::from_native(0xFFu8) << 31usize).to_native::<u32>();
    assert_eq!(x, 2147483648);
}

#[test]
fn calibration_trace_generic_and_u48_agree() {
    let value = VarUInt::<48>::from_native(123u32);
    let three = VarUInt::<31>::from_native(3u8).widen::<48>();
    let mut value = value + (VarUInt::<48>::max_value() - three);
    value += VarUInt::<48>::from_native(1u8);
    assert!(value.eq_native(120u32));
    value <<= 1usize;
    assert!(value.eq_native(240u16));
    assert_eq!(value.to_native::<u64>(), 240u64);

    let fixed = U48::from_native(123u32);
    let mut fixed = fixed + (U48::max_value() - U48::from_native(3u8));
    fixed += U48::from_native(1u8);
    assert_eq!(fixed.to_string(), "120");
    fixed <<= 1usize;
    assert_eq!(fixed.to_string(), "240");
    assert!(fixed == value);
    assert_eq!(fixed.to_native::<u64>(), value.to_native::<u64>());
}
