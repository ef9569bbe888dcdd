use vstd::prelude::*;

verus! {

/// The four numeric kinds a value at the bridge boundary may have.
///
/// The boundary protocol identifies each kind by a small integer code:
/// 1 for a 32-bit integer, 2 for a 64-bit integer, 3 for a 32-bit float,
/// 4 for a 64-bit float. Any other code is a protocol violation.
#[derive(Clone, Copy, PartialEq, Eq, Structural, Debug)]
pub enum Kind {
    I32,
    I64,
    F32,
    F64,
}

/// A tagged value crossing the bridge.
///
/// Float-kinded values are carried as their raw bit patterns (the payload of
/// `F32` is what `to_bits` yields on the 32-bit float, likewise `F64`): the
/// bridge never computes with float values, it only moves them bit-exactly,
/// so the bit pattern is the whole of what it needs to know.
#[derive(Clone, Copy, PartialEq, Eq, Structural, Debug)]
pub enum TaggedValue {
    I32(i32),
    I64(i64),
    F32(u32),
    F64(u64),
}

impl TaggedValue {
    /// The kind of this value.
    pub open spec fn kind_spec(self) -> Kind {
        match self {
            TaggedValue::I32(_) => Kind::I32,
            TaggedValue::I64(_) => Kind::I64,
            TaggedValue::F32(_) => Kind::F32,
            TaggedValue::F64(_) => Kind::F64,
        }
    }

    /// The kind of this value.
    pub fn kind(&self) -> (r: Kind)
        ensures
            r == self.kind_spec(),
    {
        match self {
            TaggedValue::I32(_) => Kind::I32,
            TaggedValue::I64(_) => Kind::I64,
            TaggedValue::F32(_) => Kind::F32,
            TaggedValue::F64(_) => Kind::F64,
        }
    }
}

/// The kind a boundary kind code names, or `None` for a code outside the
/// closed enumeration.
pub fn kind_from_code(code: i32) -> (r: Option<Kind>)
    ensures
        r == match code {
            1i32 => Some(Kind::I32),
            2i32 => Some(Kind::I64),
            3i32 => Some(Kind::F32),
            4i32 => Some(Kind::F64),
            _ => None::<Kind>,
        },
{
    match code {
        1 => Some(Kind::I32),
        2 => Some(Kind::I64),
        3 => Some(Kind::F32),
        4 => Some(Kind::F64),
        _ => None,
    }
}

/// The boundary code of a kind: the inverse of `kind_from_code`.
pub fn kind_code(k: Kind) -> (r: i32)
    ensures
        r == match k {
            Kind::I32 => 1i32,
            Kind::I64 => 2i32,
            Kind::F32 => 3i32,
            Kind::F64 => 4i32,
        },
{
    match k {
        Kind::I32 => 1,
        Kind::I64 => 2,
        Kind::F32 => 3,
        Kind::F64 => 4,
    }
}

/// The 64-bit slot a value is carried in across the import trampoline:
/// integers pass through (a 32-bit integer is sign-extended), float bit
/// patterns are zero-extended; nothing is ever value-converted.
pub open spec fn spec_slot_of(v: TaggedValue) -> i64 {
    match v {
        TaggedValue::I32(x) => x as i64,
        TaggedValue::I64(x) => x,
        TaggedValue::F32(b) => b as i64,
        TaggedValue::F64(b) => b as i64,
    }
}

/// Packs a value into its 64-bit trampoline slot.
pub fn value_to_slot(v: &TaggedValue) -> (r: i64)
    ensures
        r == spec_slot_of(*v),
{
    match v {
        TaggedValue::I32(x) => *x as i64,
        TaggedValue::I64(x) => *x,
        TaggedValue::F32(b) => *b as i64,
        TaggedValue::F64(b) => *b as i64,
    }
}

/// Reads a value of the given kind back out of a 64-bit trampoline slot:
/// the inverse reinterpretation of `spec_slot_of`.
pub open spec fn spec_value_of_slot(k: Kind, s: i64) -> TaggedValue {
    match k {
        Kind::I32 => TaggedValue::I32(s as i32),
        Kind::I64 => TaggedValue::I64(s),
        Kind::F32 => TaggedValue::F32(s as u32),
        Kind::F64 => TaggedValue::F64(s as u64),
    }
}

/// Unpacks a slot into the value of the declared kind.
pub fn slot_to_value(k: Kind, s: i64) -> (r: TaggedValue)
    ensures
        r == spec_value_of_slot(k, s),
{
    match k {
        Kind::I32 => TaggedValue::I32(s as i32),
        Kind::I64 => TaggedValue::I64(s),
        Kind::F32 => TaggedValue::F32(s as u32),
        Kind::F64 => TaggedValue::F64(s as u64),
    }
}

/// A slot round trip is the identity: packing a value and unpacking it at
/// its own kind yields the value again, bit-exactly.
pub proof fn lemma_slot_round_trip(v: TaggedValue)
    ensures
        spec_value_of_slot(v.kind_spec(), spec_slot_of(v)) == v,
{
    match v {
        TaggedValue::I32(x) => {
            assert(x as i64 as i32 == x) by (bit_vector);
        },
        TaggedValue::I64(_) => {},
        TaggedValue::F32(b) => {
            assert(b as i64 as u32 == b) by (bit_vector);
        },
        TaggedValue::F64(b) => {
            assert(b as i64 as u64 == b) by (bit_vector);
        },
    }
}

} // verus!
