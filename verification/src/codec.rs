use vstd::prelude::*;

use crate::error::Error;
use crate::value::TaggedValue;

verus! {

/// What the value codec sees of a host boxed value.
///
/// The host object model is opaque to this library; the host boundary
/// inspects a boxed value's runtime type, probing the four recognized
/// boxed-scalar classes in a fixed order (32-bit integer, 64-bit integer,
/// 32-bit float, 64-bit float, first match wins), and hands the codec the
/// outcome of that inspection: the class that matched together with the
/// payload read from it (float payloads as raw bit patterns), `Null` for a
/// null reference, or `Other` with a description of the offending value.
pub enum HostValue {
    /// A null reference.
    Null,
    /// A boxed 32-bit integer.
    Int(i32),
    /// A boxed 64-bit integer.
    Long(i64),
    /// A boxed 32-bit float, as its raw bit pattern.
    Float(u32),
    /// A boxed 64-bit float, as its raw bit pattern.
    Double(u64),
    /// A boxed value of any other class; the payload describes it.
    Other(String),
}

/// The tagged value a host boxed value decodes to, or `None` for the
/// unrecognized and null inputs, which decoding rejects.
pub open spec fn spec_decode(h: HostValue) -> Option<TaggedValue> {
    match h {
        HostValue::Null => None,
        HostValue::Int(x) => Some(TaggedValue::I32(x)),
        HostValue::Long(x) => Some(TaggedValue::I64(x)),
        HostValue::Float(b) => Some(TaggedValue::F32(b)),
        HostValue::Double(b) => Some(TaggedValue::F64(b)),
        HostValue::Other(_) => None,
    }
}

/// Converts a host boxed scalar to a tagged value. An unrecognized or null
/// input fails with a `ConversionError` naming the offending value.
pub fn decode(h: HostValue) -> (r: Result<TaggedValue, Error>)
    ensures
        r is Ok <==> spec_decode(h) is Some,
        r is Ok ==> Some(r->Ok_0) == spec_decode(h),
        r is Err ==> r->Err_0 is ConversionError,
        h matches HostValue::Other(d) ==> (r matches Err(Error::ConversionError(m)) && m == d),
        h is Null ==> (r matches Err(Error::ConversionError(m)) && m@ == "null"@),
{
    match h {
        HostValue::Null => Err(Error::ConversionError("null".to_owned())),
        HostValue::Int(x) => Ok(TaggedValue::I32(x)),
        HostValue::Long(x) => Ok(TaggedValue::I64(x)),
        HostValue::Float(b) => Ok(TaggedValue::F32(b)),
        HostValue::Double(b) => Ok(TaggedValue::F64(b)),
        HostValue::Other(d) => Err(Error::ConversionError(d)),
    }
}

/// The boxed-scalar class whose runtime kind matches the value's tag.
pub open spec fn spec_encode(v: TaggedValue) -> HostValue {
    match v {
        TaggedValue::I32(x) => HostValue::Int(x),
        TaggedValue::I64(x) => HostValue::Long(x),
        TaggedValue::F32(b) => HostValue::Float(b),
        TaggedValue::F64(b) => HostValue::Double(b),
    }
}

/// Converts a tagged value to the host boxed scalar of the matching class.
///
/// The host boundary performs the actual allocation of the boxed object;
/// that allocation failing is a host-environment failure, not part of this
/// conversion.
pub fn encode(v: &TaggedValue) -> (r: HostValue)
    ensures
        r == spec_encode(*v),
{
    match v {
        TaggedValue::I32(x) => HostValue::Int(*x),
        TaggedValue::I64(x) => HostValue::Long(*x),
        TaggedValue::F32(b) => HostValue::Float(*b),
        TaggedValue::F64(b) => HostValue::Double(*b),
    }
}

/// The codec round trip is the identity: decoding an encoded value yields
/// the value again, bit-exactly, for all four kinds.
pub proof fn lemma_codec_round_trip(v: TaggedValue)
    ensures
        spec_decode(spec_encode(v)) == Some(v),
{
}

} // verus!
