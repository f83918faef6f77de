//! Host value bridge: the values that the host engine takes and gives, and
//! the conversion between them and raw slots.
//!
//! The engine's own value type cannot be looked into from here, so the
//! bridge works on [`HostValue`], which holds as plain data what the engine
//! is handed or has handed back. Whoever talks to the engine turns one into
//! the other.

use vstd::prelude::*;
use crate::value::{
    lemma_raw_round_trip, low32, low64, pattern32, pattern64, signed32, signed64, RawValue, Value,
    ValueType,
};

verus! {

/// A value of the host engine.
///
/// A float is given by the IEEE-754 pattern of the 32-bit or 64-bit float
/// that it was made from. An aggregate is indexed from zero.
#[derive(Debug, PartialEq, Eq)]
pub enum HostValue {
    Undefined,
    Integer(i64),
    Float32(u32),
    Float64(u64),
    Reference(u64),
    Aggregate(Vec<HostValue>),
}

/// What a [`HostValue`] stands for.
pub enum HostModel {
    Undefined,
    Integer(i64),
    Float32(u32),
    Float64(u64),
    Reference(u64),
    Aggregate(Seq<HostModel>),
}

/// The models of a sequence of host values, in order.
pub open spec fn models(items: Seq<HostValue>) -> Seq<HostModel> {
    Seq::new(items.len(), |i: int| items[i]@)
}

impl HostValue {
    /// What the value stands for: the same value, with the elements of an
    /// aggregate as a sequence.
    pub open spec fn view(&self) -> HostModel
        decreases self,
    {
        match self {
            HostValue::Undefined => HostModel::Undefined,
            HostValue::Integer(n) => HostModel::Integer(*n),
            HostValue::Float32(pattern) => HostModel::Float32(*pattern),
            HostValue::Float64(pattern) => HostModel::Float64(*pattern),
            HostValue::Reference(handle) => HostModel::Reference(*handle),
            HostValue::Aggregate(items) => HostModel::Aggregate(
                Seq::new(
                    items@.len(),
                    |i: int|
                        if 0 <= i < items@.len() {
                            items@[i].view()
                        } else {
                            HostModel::Undefined
                        },
                ),
            ),
        }
    }

    /// Builds the aggregate of `items`, which keep their order.
    pub fn aggregate(items: Vec<HostValue>) -> (host: HostValue)
        ensures
            host@ == HostModel::Aggregate(models(items@)),
    {
        let host = HostValue::Aggregate(items);
        assert(host@->Aggregate_0 =~= models(items@));
        host
    }

    /// A copy of the value, elements included.
    pub fn duplicate(&self) -> (copy: HostValue)
        ensures
            copy@ == self@,
        decreases self,
    {
        match self {
            HostValue::Undefined => HostValue::Undefined,
            HostValue::Integer(n) => HostValue::Integer(*n),
            HostValue::Float32(pattern) => HostValue::Float32(*pattern),
            HostValue::Float64(pattern) => HostValue::Float64(*pattern),
            HostValue::Reference(handle) => HostValue::Reference(*handle),
            HostValue::Aggregate(items) => {
                let mut copies: Vec<HostValue> = Vec::new();
                let mut i: usize = 0;
                while i < items.len()
                    invariant
                        decreases_to!(self => *items),
                        i <= items.len(),
                        copies@.len() == i,
                        forall|j: int| 0 <= j < i ==> (#[trigger] copies@[j])@ == items@[j]@,
                    decreases items.len() - i,
                {
                    copies.push(items[i].duplicate());
                    i += 1;
                }
                let copy = HostValue::Aggregate(copies);
                assert(copy@->Aggregate_0 =~= self@->Aggregate_0);
                copy
            },
        }
    }

    /// Whether the value is an indexable aggregate.
    pub fn is_aggregate(&self) -> (yes: bool)
        ensures
            yes == (self@ is Aggregate),
    {
        match self {
            HostValue::Aggregate(_) => true,
            _ => false,
        }
    }

    /// The element of an aggregate at `index`; nothing where the value is no
    /// aggregate or has no such element.
    pub fn element(&self, index: usize) -> (found: Option<&HostValue>)
        ensures
            found is Some <==> (self@ matches HostModel::Aggregate(items) && index < items.len()),
            found matches Some(item) ==> item@ == self@->Aggregate_0[index as int],
    {
        match self {
            HostValue::Aggregate(items) => {
                if index < items.len() {
                    Some(&items[index])
                } else {
                    None
                }
            },
            _ => None,
        }
    }
}

impl Clone for HostValue {
    /// A copy of the value, elements included.
    fn clone(&self) -> (copy: Self)
        ensures
            copy@ == self@,
    {
        self.duplicate()
    }
}

/// The host value that carries the content of a slot read as `ty`.
pub open spec fn encode_spec(raw: RawValue, ty: ValueType) -> HostModel {
    match ty {
        ValueType::I32 => HostModel::Integer(signed32(raw.bits) as i64),
        ValueType::I64 => HostModel::Integer(signed64(raw.bits)),
        ValueType::F32 => HostModel::Float32(low32(raw.bits)),
        ValueType::F64 => HostModel::Float64(low64(raw.bits)),
        ValueType::ExternRef | ValueType::FuncRef => HostModel::Reference(low64(raw.bits)),
    }
}

/// The slot that a host value fills when it is taken as a value of type
/// `ty`; nothing where the host value is of another kind than the type
/// asks for, or is an integer beyond the 32 bits of an `I32`.
pub open spec fn decode_spec(host: HostModel, ty: ValueType) -> Option<RawValue> {
    match (ty, host) {
        (ValueType::I32, HostModel::Integer(n)) => if i32::MIN <= n <= i32::MAX {
            Some(RawValue { bits: pattern32(n as i32) })
        } else {
            None
        },
        (ValueType::I64, HostModel::Integer(n)) => Some(RawValue { bits: pattern64(n) }),
        (ValueType::F32, HostModel::Float32(pattern)) => Some(RawValue { bits: pattern as u128 }),
        (ValueType::F64, HostModel::Float64(pattern)) => Some(RawValue { bits: pattern as u128 }),
        (ValueType::ExternRef, HostModel::Reference(handle)) => Some(
            RawValue { bits: handle as u128 },
        ),
        (ValueType::FuncRef, HostModel::Reference(handle)) => Some(
            RawValue { bits: handle as u128 },
        ),
        _ => None,
    }
}

/// Whether a host value is one that carries a value of type `ty`.
pub open spec fn fits_spec(host: HostModel, ty: ValueType) -> bool {
    decode_spec(host, ty) is Some
}

/// Turns the content of a slot, read as `ty`, into a host value. The result
/// is a scalar, never an aggregate, and decoding it for the same type gives
/// the bits of the type back.
pub fn encode(raw: RawValue, ty: ValueType) -> (host: HostValue)
    ensures
        host@ == encode_spec(raw, ty),
        !(host@ is Aggregate),
        decode_spec(host@, ty) == Some(raw.canonical(ty)),
{
    proof {
        lemma_decode_encode(raw, ty);
    }
    match ty {
        ValueType::I32 => HostValue::Integer(raw.as_i32() as i64),
        ValueType::I64 => HostValue::Integer(raw.as_i64()),
        ValueType::F32 => HostValue::Float32(raw.as_f32_bits()),
        ValueType::F64 => HostValue::Float64(raw.as_f64_bits()),
        ValueType::ExternRef => HostValue::Reference(raw.as_handle()),
        ValueType::FuncRef => HostValue::Reference(raw.as_handle()),
    }
}

/// Turns a host value into the slot that holds the value of type `ty` that
/// it carries. There is no slot for a host value that carries no value of
/// that type.
pub fn decode(host: &HostValue, ty: ValueType) -> (decoded: Option<RawValue>)
    ensures
        decoded == decode_spec(host@, ty),
        decoded matches Some(raw) ==> raw.is_canonical(ty),
{
    match (ty, host) {
        (ValueType::I32, HostValue::Integer(n)) => {
            if -0x8000_0000 <= *n && *n <= 0x7fff_ffff {
                Some(RawValue::from_i32(*n as i32))
            } else {
                None
            }
        },
        (ValueType::I64, HostValue::Integer(n)) => Some(RawValue::from_i64(*n)),
        (ValueType::F32, HostValue::Float32(pattern)) => Some(RawValue::from_f32_bits(*pattern)),
        (ValueType::F64, HostValue::Float64(pattern)) => Some(RawValue::from_f64_bits(*pattern)),
        (ValueType::ExternRef, HostValue::Reference(handle)) => Some(
            RawValue::from_handle(*handle),
        ),
        (ValueType::FuncRef, HostValue::Reference(handle)) => Some(RawValue::from_handle(*handle)),
        _ => None,
    }
}

/// Round trip through the host: a slot that is encoded and decoded again for
/// the same type comes back with the bits of that type unchanged, and so
/// comes back whole where it held nothing else. This covers every 64-bit
/// integer and every float pattern, those of NaNs included.
pub proof fn lemma_decode_encode(raw: RawValue, ty: ValueType)
    ensures
        decode_spec(encode_spec(raw, ty), ty) == Some(raw.canonical(ty)),
        raw.is_canonical(ty) ==> decode_spec(encode_spec(raw, ty), ty) == Some(raw),
{
    lemma_raw_round_trip(ty, raw);
}

/// Round trip of a native value: written to a slot, encoded for the host,
/// decoded and read again, it is the value that was written.
pub proof fn lemma_native_round_trip(value: Value)
    ensures
        decode_spec(encode_spec(value.to_raw_spec(), value.ty_spec()), value.ty_spec())
            matches Some(raw) && Value::from_raw_spec(value.ty_spec(), raw) == value,
{
}

/// Round trip from the host's side: a host value that carries a value of a
/// type is what encoding its slot for that type gives.
pub proof fn lemma_encode_decode(host: HostModel, ty: ValueType)
    ensures
        decode_spec(host, ty) matches Some(raw) ==> encode_spec(raw, ty) == host,
{
}

} // verus!
