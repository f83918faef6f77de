//! Value representation: native typed values and the untagged 128-bit slot
//! that carries them across the call boundary.
//!
//! A slot has no tag of its own. A [`ValueType`] says which of its low bits
//! count and how they are read: integers as their two's-complement pattern,
//! floats as their IEEE-754 pattern, references as an opaque 64-bit handle.
//! Floats never appear as numbers here; a float is its bit pattern, so that
//! every payload of a NaN survives.

use vstd::prelude::*;

verus! {

/// How a [`RawValue`] is to be read.
#[derive(Clone, Copy, Debug, PartialEq, Eq, Structural)]
pub enum ValueType {
    I32,
    I64,
    F32,
    F64,
    ExternRef,
    FuncRef,
}

impl ValueType {
    /// One more than the largest slot content that a value of this type
    /// produces: the type uses the bits below this bound and no others.
    pub open spec fn limit(self) -> int {
        match self {
            ValueType::I32 | ValueType::F32 => 0x1_0000_0000,
            ValueType::I64 | ValueType::F64 => 0x1_0000_0000_0000_0000,
            ValueType::ExternRef | ValueType::FuncRef => 0x1_0000_0000_0000_0000,
        }
    }
}

/// The two's-complement pattern of a 32-bit integer, in the low 32 bits.
pub open spec fn pattern32(x: i32) -> u128 {
    if x < 0 {
        (x + 0x1_0000_0000) as u128
    } else {
        x as u128
    }
}

/// The two's-complement pattern of a 64-bit integer, in the low 64 bits.
pub open spec fn pattern64(x: i64) -> u128 {
    if x < 0 {
        (x + 0x1_0000_0000_0000_0000) as u128
    } else {
        x as u128
    }
}

/// The low 32 bits of a slot.
pub open spec fn low32(bits: u128) -> u32 {
    (bits % 0x1_0000_0000) as u32
}

/// The low 64 bits of a slot.
pub open spec fn low64(bits: u128) -> u64 {
    (bits % 0x1_0000_0000_0000_0000) as u64
}

/// The 32-bit integer whose two's-complement pattern the low 32 bits hold.
pub open spec fn signed32(bits: u128) -> i32 {
    let low = low32(bits);
    if low >= 0x8000_0000 {
        (low - 0x1_0000_0000) as i32
    } else {
        low as i32
    }
}

/// The 64-bit integer whose two's-complement pattern the low 64 bits hold.
pub open spec fn signed64(bits: u128) -> i64 {
    let low = low64(bits);
    if low >= 0x8000_0000_0000_0000 {
        (low - 0x1_0000_0000_0000_0000) as i64
    } else {
        low as i64
    }
}

/// An untagged 128-bit slot. It means something only together with the one
/// [`ValueType`] it was written for.
#[derive(Clone, Copy, Debug, PartialEq, Eq, Structural)]
pub struct RawValue {
    pub bits: u128,
}

impl RawValue {
    /// Whether the slot is one that writing a value of type `ty` produces:
    /// nothing is set above the bits that the type uses.
    pub open spec fn is_canonical(self, ty: ValueType) -> bool {
        self.bits < ty.limit()
    }

    /// The slot with everything above the bits of `ty` cleared.
    pub open spec fn canonical(self, ty: ValueType) -> RawValue {
        RawValue { bits: (self.bits % (ty.limit() as u128)) as u128 }
    }

    /// The slot with no bit set.
    pub fn zero() -> (raw: RawValue)
        ensures
            raw.bits == 0,
    {
        RawValue { bits: 0 }
    }

    /// Stores a 32-bit integer as its two's-complement pattern.
    pub fn from_i32(x: i32) -> (raw: RawValue)
        ensures
            raw.bits == pattern32(x),
    {
        let low: u32 = x as u32;
        assert(low as u128 == pattern32(x)) by (bit_vector)
            requires
                low == x as u32,
        ;
        RawValue { bits: low as u128 }
    }

    /// Stores a 64-bit integer as its two's-complement pattern.
    pub fn from_i64(x: i64) -> (raw: RawValue)
        ensures
            raw.bits == pattern64(x),
    {
        let low: u64 = x as u64;
        assert(low as u128 == pattern64(x)) by (bit_vector)
            requires
                low == x as u64,
        ;
        RawValue { bits: low as u128 }
    }

    /// Stores the IEEE-754 pattern of a 32-bit float.
    pub fn from_f32_bits(pattern: u32) -> (raw: RawValue)
        ensures
            raw.bits == pattern,
    {
        RawValue { bits: pattern as u128 }
    }

    /// Stores the IEEE-754 pattern of a 64-bit float.
    pub fn from_f64_bits(pattern: u64) -> (raw: RawValue)
        ensures
            raw.bits == pattern,
    {
        RawValue { bits: pattern as u128 }
    }

    /// Stores a reference handle.
    pub fn from_handle(handle: u64) -> (raw: RawValue)
        ensures
            raw.bits == handle,
    {
        RawValue { bits: handle as u128 }
    }

    /// Reads the low 32 bits as a signed integer.
    pub fn as_i32(&self) -> (x: i32)
        ensures
            x == signed32(self.bits),
    {
        let bits: u128 = self.bits;
        let low: u32 = (bits & 0xffff_ffff) as u32;
        let x: i32 = low as i32;
        assert(x == signed32(bits)) by (bit_vector)
            requires
                low == (bits & 0xffff_ffff) as u32,
                x == low as i32,
        ;
        x
    }

    /// Reads the low 64 bits as a signed integer.
    pub fn as_i64(&self) -> (x: i64)
        ensures
            x == signed64(self.bits),
    {
        let bits: u128 = self.bits;
        let low: u64 = (bits & 0xffff_ffff_ffff_ffff) as u64;
        let x: i64 = low as i64;
        assert(x == signed64(bits)) by (bit_vector)
            requires
                low == (bits & 0xffff_ffff_ffff_ffff) as u64,
                x == low as i64,
        ;
        x
    }

    /// Reads the IEEE-754 pattern of a 32-bit float.
    pub fn as_f32_bits(&self) -> (pattern: u32)
        ensures
            pattern == low32(self.bits),
    {
        let bits: u128 = self.bits;
        let low: u32 = (bits & 0xffff_ffff) as u32;
        assert(low == low32(bits)) by (bit_vector)
            requires
                low == (bits & 0xffff_ffff) as u32,
        ;
        low
    }

    /// Reads the IEEE-754 pattern of a 64-bit float.
    pub fn as_f64_bits(&self) -> (pattern: u64)
        ensures
            pattern == low64(self.bits),
    {
        let bits: u128 = self.bits;
        let low: u64 = (bits & 0xffff_ffff_ffff_ffff) as u64;
        assert(low == low64(bits)) by (bit_vector)
            requires
                low == (bits & 0xffff_ffff_ffff_ffff) as u64,
        ;
        low
    }

    /// Reads a reference handle.
    pub fn as_handle(&self) -> (handle: u64)
        ensures
            handle == low64(self.bits),
    {
        self.as_f64_bits()
    }
}

/// A native value together with its type. `F32` and `F64` hold the IEEE-754
/// bit pattern of the float; the reference variants hold an opaque handle
/// that only the host engine can interpret.
#[derive(Clone, Copy, Debug, PartialEq, Eq, Structural)]
pub enum Value {
    I32(i32),
    I64(i64),
    F32(u32),
    F64(u64),
    ExternRef(u64),
    FuncRef(u64),
}

impl Value {
    /// The type of this value.
    pub open spec fn ty_spec(self) -> ValueType {
        match self {
            Value::I32(_) => ValueType::I32,
            Value::I64(_) => ValueType::I64,
            Value::F32(_) => ValueType::F32,
            Value::F64(_) => ValueType::F64,
            Value::ExternRef(_) => ValueType::ExternRef,
            Value::FuncRef(_) => ValueType::FuncRef,
        }
    }

    /// The slot that holds this value.
    pub open spec fn to_raw_spec(self) -> RawValue {
        match self {
            Value::I32(x) => RawValue { bits: pattern32(x) },
            Value::I64(x) => RawValue { bits: pattern64(x) },
            Value::F32(pattern) => RawValue { bits: pattern as u128 },
            Value::F64(pattern) => RawValue { bits: pattern as u128 },
            Value::ExternRef(handle) => RawValue { bits: handle as u128 },
            Value::FuncRef(handle) => RawValue { bits: handle as u128 },
        }
    }

    /// The value of type `ty` that a slot holds.
    pub open spec fn from_raw_spec(ty: ValueType, raw: RawValue) -> Value {
        match ty {
            ValueType::I32 => Value::I32(signed32(raw.bits)),
            ValueType::I64 => Value::I64(signed64(raw.bits)),
            ValueType::F32 => Value::F32(low32(raw.bits)),
            ValueType::F64 => Value::F64(low64(raw.bits)),
            ValueType::ExternRef => Value::ExternRef(low64(raw.bits)),
            ValueType::FuncRef => Value::FuncRef(low64(raw.bits)),
        }
    }

    /// The type of this value.
    pub fn ty(&self) -> (ty: ValueType)
        ensures
            ty == self.ty_spec(),
    {
        match self {
            Value::I32(_) => ValueType::I32,
            Value::I64(_) => ValueType::I64,
            Value::F32(_) => ValueType::F32,
            Value::F64(_) => ValueType::F64,
            Value::ExternRef(_) => ValueType::ExternRef,
            Value::FuncRef(_) => ValueType::FuncRef,
        }
    }

    /// Writes the value into a slot, bit for bit.
    pub fn to_raw(&self) -> (raw: RawValue)
        ensures
            raw == self.to_raw_spec(),
            raw.is_canonical(self.ty_spec()),
    {
        match self {
            Value::I32(x) => RawValue::from_i32(*x),
            Value::I64(x) => RawValue::from_i64(*x),
            Value::F32(pattern) => RawValue::from_f32_bits(*pattern),
            Value::F64(pattern) => RawValue::from_f64_bits(*pattern),
            Value::ExternRef(handle) => RawValue::from_handle(*handle),
            Value::FuncRef(handle) => RawValue::from_handle(*handle),
        }
    }

    /// Reads a slot as a value of type `ty`. Only the bits that the type
    /// uses are looked at.
    pub fn from_raw(ty: ValueType, raw: RawValue) -> (value: Value)
        ensures
            value == Value::from_raw_spec(ty, raw),
            value.ty_spec() == ty,
    {
        match ty {
            ValueType::I32 => Value::I32(raw.as_i32()),
            ValueType::I64 => Value::I64(raw.as_i64()),
            ValueType::F32 => Value::F32(raw.as_f32_bits()),
            ValueType::F64 => Value::F64(raw.as_f64_bits()),
            ValueType::ExternRef => Value::ExternRef(raw.as_handle()),
            ValueType::FuncRef => Value::FuncRef(raw.as_handle()),
        }
    }
}

/// Writing a value fills only the bits of its type.
pub proof fn lemma_to_raw_canonical(value: Value)
    ensures
        value.to_raw_spec().is_canonical(value.ty_spec()),
{
}

/// Reading back what was written gives the value that was written: every
/// 32-bit and 64-bit integer, every float pattern, every handle.
pub proof fn lemma_value_round_trip(value: Value)
    ensures
        Value::from_raw_spec(value.ty_spec(), value.to_raw_spec()) == value,
{
}

/// Writing back what was read gives the slot again, once the bits that the
/// type does not use are cleared; a canonical slot comes back unchanged.
pub proof fn lemma_raw_round_trip(ty: ValueType, raw: RawValue)
    ensures
        Value::from_raw_spec(ty, raw).to_raw_spec() == raw.canonical(ty),
        raw.is_canonical(ty) ==> raw.canonical(ty) == raw,
        raw.canonical(ty).is_canonical(ty),
{
}

/// Reading a slot looks only at the bits of the type.
pub proof fn lemma_read_ignores_high_bits(ty: ValueType, raw: RawValue)
    ensures
        Value::from_raw_spec(ty, raw.canonical(ty)) == Value::from_raw_spec(ty, raw),
{
}

} // verus!
