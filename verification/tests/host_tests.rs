use typed_call::host::{decode, encode, HostValue};
use typed_call::value::{RawValue, Value, ValueType};

fn through_host(value: Value) -> Value {
    let ty = value.ty();
    let host = encode(value.to_raw(), ty);
    Value::from_raw(ty, decode(&host, ty).unwrap())
}

#[test]
fn integers_become_host_integers() {
    assert_eq!(encode(RawValue { bits: 7 }, ValueType::I32), HostValue::Integer(7));
    assert_eq!(encode(RawValue { bits: 0xffff_ffff }, ValueType::I32), HostValue::Integer(-1));
    assert_eq!(
        encode(RawValue { bits: 0xffff_ffff }, ValueType::I64),
        HostValue::Integer(0xffff_ffff)
    );
    assert_eq!(
        encode(RawValue { bits: 0x8000_0000_0000_0000 }, ValueType::I64),
        HostValue::Integer(i64::MIN)
    );
}

#[test]
fn floats_become_host_floats_of_their_width() {
    assert_eq!(
        encode(RawValue { bits: 0x3f80_0000 }, ValueType::F32),
        HostValue::Float32(1.0f32.to_bits())
    );
    assert_eq!(
        encode(RawValue { bits: 0x3ff0_0000_0000_0000 }, ValueType::F64),
        HostValue::Float64(1.0f64.to_bits())
    );
}

#[test]
fn handles_become_host_references() {
    assert_eq!(encode(RawValue { bits: 42 }, ValueType::FuncRef), HostValue::Reference(42));
    assert_eq!(encode(RawValue { bits: 43 }, ValueType::ExternRef), HostValue::Reference(43));
}

#[test]
fn decoding_gives_the_canonical_slot() {
    assert_eq!(
        decode(&HostValue::Integer(-1), ValueType::I32),
        Some(RawValue { bits: 0xffff_ffff })
    );
    assert_eq!(
        decode(&HostValue::Integer(-1), ValueType::I64),
        Some(RawValue { bits: 0xffff_ffff_ffff_ffff })
    );
    assert_eq!(
        decode(&HostValue::Float32(0x7fc0_0000), ValueType::F32),
        Some(RawValue { bits: 0x7fc0_0000 })
    );
    assert_eq!(
        decode(&HostValue::Float64(0x7ff8_0000_0000_0000), ValueType::F64),
        Some(RawValue { bits: 0x7ff8_0000_0000_0000 })
    );
    assert_eq!(decode(&HostValue::Reference(5), ValueType::FuncRef), Some(RawValue { bits: 5 }));
    assert_eq!(decode(&HostValue::Reference(6), ValueType::ExternRef), Some(RawValue { bits: 6 }));
}

#[test]
fn decode_of_encode_is_the_slot() {
    let cases = vec![
        (RawValue { bits: 0 }, ValueType::I32),
        (RawValue { bits: 0xffff_ffff }, ValueType::I32),
        (RawValue { bits: 0x8000_0000 }, ValueType::I32),
        (RawValue { bits: 0xffff_ffff_ffff_ffff }, ValueType::I64),
        (RawValue { bits: 0x8000_0000_0000_0000 }, ValueType::I64),
        (RawValue { bits: 0x0020_0000_0000_0001 }, ValueType::I64),
        (RawValue { bits: 0x7f80_0001 }, ValueType::F32),
        (RawValue { bits: 0xffc0_0000 }, ValueType::F32),
        (RawValue { bits: 0x7ff0_0000_0000_0001 }, ValueType::F64),
        (RawValue { bits: 0xfff8_0000_dead_beef }, ValueType::F64),
        (RawValue { bits: 0xffff_ffff_ffff_ffff }, ValueType::ExternRef),
        (RawValue { bits: 1 }, ValueType::FuncRef),
    ];
    for (raw, ty) in cases {
        let host = encode(raw, ty);
        assert_eq!(decode(&host, ty), Some(raw));
    }
}

#[test]
fn decode_of_encode_drops_bits_above_the_type() {
    let crowded = RawValue { bits: 0xaaaa_0000_0000_0000_0000_0001_ffff_fffe };
    assert_eq!(
        decode(&encode(crowded, ValueType::I32), ValueType::I32),
        Some(RawValue { bits: 0xffff_fffe })
    );
    assert_eq!(
        decode(&encode(crowded, ValueType::I64), ValueType::I64),
        Some(RawValue { bits: 0x0000_0001_ffff_fffe })
    );
}

#[test]
fn full_range_of_64_bit_integers_survives_the_host() {
    for n in [i64::MIN, i64::MIN + 1, -(1 << 53) - 1, -1, 0, 1, (1 << 53) + 1, i64::MAX - 1, i64::MAX] {
        assert_eq!(through_host(Value::I64(n)), Value::I64(n));
    }
    for n in [i32::MIN, -1, 0, 1, i32::MAX] {
        assert_eq!(through_host(Value::I32(n)), Value::I32(n));
    }
}

#[test]
fn nan_patterns_survive_the_host() {
    for pattern in [0x7fc0_0000u32, 0x7fc0_0001, 0x7f80_0001, 0xffff_ffff, 0xff80_0001] {
        assert!(f32::from_bits(pattern).is_nan());
        assert_eq!(through_host(Value::F32(pattern)), Value::F32(pattern));
    }
    for pattern in [0x7ff8_0000_0000_0000u64, 0x7ff0_0000_0000_0001, 0xffff_ffff_ffff_ffff] {
        assert!(f64::from_bits(pattern).is_nan());
        assert_eq!(through_host(Value::F64(pattern)), Value::F64(pattern));
    }
}

#[test]
fn references_survive_the_host() {
    assert_eq!(through_host(Value::FuncRef(0)), Value::FuncRef(0));
    assert_eq!(through_host(Value::ExternRef(u64::MAX)), Value::ExternRef(u64::MAX));
}

#[test]
fn there_is_no_slot_for_a_host_value_of_another_kind() {
    assert_eq!(
        decode(&HostValue::Integer(i32::MAX as i64), ValueType::I32),
        Some(RawValue { bits: 0x7fff_ffff })
    );
    assert_eq!(
        decode(&HostValue::Integer(i32::MIN as i64), ValueType::I32),
        Some(RawValue { bits: 0x8000_0000 })
    );
    assert_eq!(decode(&HostValue::Integer(i32::MAX as i64 + 1), ValueType::I32), None);
    assert_eq!(decode(&HostValue::Integer(i32::MIN as i64 - 1), ValueType::I32), None);
    assert_eq!(
        decode(&HostValue::Integer(i64::MAX), ValueType::I64),
        Some(RawValue { bits: 0x7fff_ffff_ffff_ffff })
    );
    assert_eq!(decode(&HostValue::Float64(0), ValueType::I64), None);
    assert_eq!(decode(&HostValue::Float64(0), ValueType::F32), None);
    assert_eq!(decode(&HostValue::Float32(0), ValueType::F64), None);
    assert_eq!(decode(&HostValue::Integer(0), ValueType::F32), None);
    assert_eq!(decode(&HostValue::Integer(0), ValueType::FuncRef), None);
    assert_eq!(decode(&HostValue::Integer(0), ValueType::ExternRef), None);
    assert_eq!(decode(&HostValue::Reference(0), ValueType::I64), None);
    assert_eq!(decode(&HostValue::Undefined, ValueType::I32), None);
    assert_eq!(decode(&HostValue::Undefined, ValueType::ExternRef), None);
    assert_eq!(decode(&HostValue::Aggregate(vec![HostValue::Integer(1)]), ValueType::I32), None);
}

#[test]
fn aggregates_are_indexed_from_zero() {
    let aggregate = HostValue::aggregate(vec![
        HostValue::Integer(10),
        HostValue::Float64(20),
        HostValue::Undefined,
    ]);
    assert!(aggregate.is_aggregate());
    assert_eq!(aggregate.element(0), Some(&HostValue::Integer(10)));
    assert_eq!(aggregate.element(1), Some(&HostValue::Float64(20)));
    assert_eq!(aggregate.element(2), Some(&HostValue::Undefined));
    assert_eq!(aggregate.element(3), None);
}

#[test]
fn scalars_are_no_aggregates() {
    for scalar in [
        HostValue::Undefined,
        HostValue::Integer(1),
        HostValue::Float32(1),
        HostValue::Float64(1),
        HostValue::Reference(1),
    ] {
        assert!(!scalar.is_aggregate());
        assert_eq!(scalar.element(0), None);
    }
    assert!(HostValue::aggregate(vec![]).is_aggregate());
    assert_eq!(HostValue::aggregate(vec![]).element(0), None);
}

#[test]
fn a_copy_of_a_host_value_holds_the_same_elements() {
    let nested = HostValue::aggregate(vec![
        HostValue::Integer(1),
        HostValue::aggregate(vec![HostValue::Float32(2), HostValue::Undefined]),
        HostValue::Reference(3),
    ]);
    assert_eq!(nested.duplicate(), nested);
    assert_eq!(nested.clone(), nested);
    assert_eq!(HostValue::Float64(9).duplicate(), HostValue::Float64(9));
}
