//! Tagged scalar values and the tag-directed conversion facility.
//!
//! A [`TaggedScalar`] is a discriminated union holding exactly one primitive
//! payload; a [`TypeTag`] names which kind a scalar holds or a column is
//! declared to hold.  The `to_any_*` functions wrap a primitive value into the
//! scalar of the chosen tag; the `from_any_*` functions unwrap against an
//! expected tag, falling back to a fixed default (zero, empty, `false`) when
//! the scalar actually holds a different tag.
//!
//! Floating point payloads are carried as their IEEE-754 bit patterns
//! (`u32`/`u64`), since the verifier does not admit floating point values.

use vstd::prelude::*;

verus! {

/// The kind of primitive a scalar holds or a column is declared to hold.
#[derive(Clone, Copy, Debug, PartialEq, Eq, Structural)]
pub enum TypeTag {
    Int8,
    Int16,
    Int32,
    Int64,
    UInt8,
    UInt16,
    UInt32,
    UInt64,
    /// 32-bit floating point, carried as its bit pattern.
    Float32,
    /// 64-bit floating point, carried as its bit pattern.
    Float64,
    Boolean,
    /// UTF-8 text, held owned.
    Utf8,
    /// A raw byte sequence, held owned.
    Binary,
    /// The null / absent value.
    Null,
    /// A placeholder for column kinds this layer does not model.
    Unknown,
}

/// A dynamically tagged scalar: exactly one payload is live, selected by its
/// tag.  Immutable once constructed.
#[derive(Clone, Debug, PartialEq)]
pub enum TaggedScalar {
    Int8(i8),
    Int16(i16),
    Int32(i32),
    Int64(i64),
    UInt8(u8),
    UInt16(u16),
    UInt32(u32),
    UInt64(u64),
    /// A 32-bit float, as its IEEE-754 bit pattern.
    Float32Bits(u32),
    /// A 64-bit float, as its IEEE-754 bit pattern.
    Float64Bits(u64),
    Boolean(bool),
    Utf8(String),
    Binary(Vec<u8>),
    Null,
    /// A value of a kind this layer does not model.
    Unknown,
}

/// The tag a scalar actually holds.
pub open spec fn tag_of(s: TaggedScalar) -> TypeTag {
    match s {
        TaggedScalar::Int8(_) => TypeTag::Int8,
        TaggedScalar::Int16(_) => TypeTag::Int16,
        TaggedScalar::Int32(_) => TypeTag::Int32,
        TaggedScalar::Int64(_) => TypeTag::Int64,
        TaggedScalar::UInt8(_) => TypeTag::UInt8,
        TaggedScalar::UInt16(_) => TypeTag::UInt16,
        TaggedScalar::UInt32(_) => TypeTag::UInt32,
        TaggedScalar::UInt64(_) => TypeTag::UInt64,
        TaggedScalar::Float32Bits(_) => TypeTag::Float32,
        TaggedScalar::Float64Bits(_) => TypeTag::Float64,
        TaggedScalar::Boolean(_) => TypeTag::Boolean,
        TaggedScalar::Utf8(_) => TypeTag::Utf8,
        TaggedScalar::Binary(_) => TypeTag::Binary,
        TaggedScalar::Null => TypeTag::Null,
        TaggedScalar::Unknown => TypeTag::Unknown,
    }
}

impl TaggedScalar {
    /// The tag this scalar holds, as the dataframe library reports a dtype.
    pub fn dtype(&self) -> (t: TypeTag)
        ensures
            t == tag_of(*self),
    {
        match self {
            TaggedScalar::Int8(_) => TypeTag::Int8,
            TaggedScalar::Int16(_) => TypeTag::Int16,
            TaggedScalar::Int32(_) => TypeTag::Int32,
            TaggedScalar::Int64(_) => TypeTag::Int64,
            TaggedScalar::UInt8(_) => TypeTag::UInt8,
            TaggedScalar::UInt16(_) => TypeTag::UInt16,
            TaggedScalar::UInt32(_) => TypeTag::UInt32,
            TaggedScalar::UInt64(_) => TypeTag::UInt64,
            TaggedScalar::Float32Bits(_) => TypeTag::Float32,
            TaggedScalar::Float64Bits(_) => TypeTag::Float64,
            TaggedScalar::Boolean(_) => TypeTag::Boolean,
            TaggedScalar::Utf8(_) => TypeTag::Utf8,
            TaggedScalar::Binary(_) => TypeTag::Binary,
            TaggedScalar::Null => TypeTag::Null,
            TaggedScalar::Unknown => TypeTag::Unknown,
        }
    }
}

// ------------------------------------------------------------------
// Wrapping: primitive value -> tagged scalar, one function per tag.
// Tags without a wrap function (Unknown, compound kinds) cannot be
// wrapped at all: the call site simply does not build.
// ------------------------------------------------------------------

pub open spec fn spec_to_any_i8(v: i8) -> TaggedScalar {
    TaggedScalar::Int8(v)
}

pub open spec fn spec_to_any_i16(v: i16) -> TaggedScalar {
    TaggedScalar::Int16(v)
}

pub open spec fn spec_to_any_i32(v: i32) -> TaggedScalar {
    TaggedScalar::Int32(v)
}

pub open spec fn spec_to_any_i64(v: i64) -> TaggedScalar {
    TaggedScalar::Int64(v)
}

pub open spec fn spec_to_any_u8(v: u8) -> TaggedScalar {
    TaggedScalar::UInt8(v)
}

pub open spec fn spec_to_any_u16(v: u16) -> TaggedScalar {
    TaggedScalar::UInt16(v)
}

pub open spec fn spec_to_any_u32(v: u32) -> TaggedScalar {
    TaggedScalar::UInt32(v)
}

pub open spec fn spec_to_any_u64(v: u64) -> TaggedScalar {
    TaggedScalar::UInt64(v)
}

pub open spec fn spec_to_any_f32_bits(bits: u32) -> TaggedScalar {
    TaggedScalar::Float32Bits(bits)
}

pub open spec fn spec_to_any_f64_bits(bits: u64) -> TaggedScalar {
    TaggedScalar::Float64Bits(bits)
}

pub open spec fn spec_to_any_bool(v: bool) -> TaggedScalar {
    TaggedScalar::Boolean(v)
}

pub open spec fn spec_to_any_utf8(v: String) -> TaggedScalar {
    TaggedScalar::Utf8(v)
}

pub open spec fn spec_to_any_binary(v: Vec<u8>) -> TaggedScalar {
    TaggedScalar::Binary(v)
}

pub fn to_any_i8(v: i8) -> (r: TaggedScalar)
    ensures
        r == spec_to_any_i8(v),
{
    TaggedScalar::Int8(v)
}

pub fn to_any_i16(v: i16) -> (r: TaggedScalar)
    ensures
        r == spec_to_any_i16(v),
{
    TaggedScalar::Int16(v)
}

pub fn to_any_i32(v: i32) -> (r: TaggedScalar)
    ensures
        r == spec_to_any_i32(v),
{
    TaggedScalar::Int32(v)
}

pub fn to_any_i64(v: i64) -> (r: TaggedScalar)
    ensures
        r == spec_to_any_i64(v),
{
    TaggedScalar::Int64(v)
}

pub fn to_any_u8(v: u8) -> (r: TaggedScalar)
    ensures
        r == spec_to_any_u8(v),
{
    TaggedScalar::UInt8(v)
}

pub fn to_any_u16(v: u16) -> (r: TaggedScalar)
    ensures
        r == spec_to_any_u16(v),
{
    TaggedScalar::UInt16(v)
}

pub fn to_any_u32(v: u32) -> (r: TaggedScalar)
    ensures
        r == spec_to_any_u32(v),
{
    TaggedScalar::UInt32(v)
}

pub fn to_any_u64(v: u64) -> (r: TaggedScalar)
    ensures
        r == spec_to_any_u64(v),
{
    TaggedScalar::UInt64(v)
}

/// Wrap a 32-bit float given as its IEEE-754 bit pattern.
pub fn to_any_f32_bits(bits: u32) -> (r: TaggedScalar)
    ensures
        r == spec_to_any_f32_bits(bits),
{
    TaggedScalar::Float32Bits(bits)
}

/// Wrap a 64-bit float given as its IEEE-754 bit pattern.
pub fn to_any_f64_bits(bits: u64) -> (r: TaggedScalar)
    ensures
        r == spec_to_any_f64_bits(bits),
{
    TaggedScalar::Float64Bits(bits)
}

pub fn to_any_bool(v: bool) -> (r: TaggedScalar)
    ensures
        r == spec_to_any_bool(v),
{
    TaggedScalar::Boolean(v)
}

pub fn to_any_utf8(v: String) -> (r: TaggedScalar)
    ensures
        r == spec_to_any_utf8(v),
{
    TaggedScalar::Utf8(v)
}

pub fn to_any_binary(v: Vec<u8>) -> (r: TaggedScalar)
    ensures
        r == spec_to_any_binary(v),
{
    TaggedScalar::Binary(v)
}

/// Wrapping with the null tag discards the value and always yields the
/// null scalar.
pub fn to_any_null<T>(_value: T) -> (r: TaggedScalar)
    ensures
        r == TaggedScalar::Null,
{
    TaggedScalar::Null
}

// ------------------------------------------------------------------
// Unwrapping: tagged scalar -> primitive value, one function per tag.
// A scalar holding a different tag unwraps to a fixed default: zero
// for the numeric tags, the empty string or sequence for text and
// binary, `false` for booleans.  Mismatches never fail.
// ------------------------------------------------------------------

pub open spec fn spec_from_any_i8(s: TaggedScalar) -> i8 {
    match s {
        TaggedScalar::Int8(v) => v,
        _ => 0,
    }
}

pub open spec fn spec_from_any_i16(s: TaggedScalar) -> i16 {
    match s {
        TaggedScalar::Int16(v) => v,
        _ => 0,
    }
}

pub open spec fn spec_from_any_i32(s: TaggedScalar) -> i32 {
    match s {
        TaggedScalar::Int32(v) => v,
        _ => 0,
    }
}

pub open spec fn spec_from_any_i64(s: TaggedScalar) -> i64 {
    match s {
        TaggedScalar::Int64(v) => v,
        _ => 0,
    }
}

pub open spec fn spec_from_any_u8(s: TaggedScalar) -> u8 {
    match s {
        TaggedScalar::UInt8(v) => v,
        _ => 0,
    }
}

pub open spec fn spec_from_any_u16(s: TaggedScalar) -> u16 {
    match s {
        TaggedScalar::UInt16(v) => v,
        _ => 0,
    }
}

pub open spec fn spec_from_any_u32(s: TaggedScalar) -> u32 {
    match s {
        TaggedScalar::UInt32(v) => v,
        _ => 0,
    }
}

pub open spec fn spec_from_any_u64(s: TaggedScalar) -> u64 {
    match s {
        TaggedScalar::UInt64(v) => v,
        _ => 0,
    }
}

pub open spec fn spec_from_any_f32_bits(s: TaggedScalar) -> u32 {
    match s {
        TaggedScalar::Float32Bits(bits) => bits,
        _ => 0,
    }
}

pub open spec fn spec_from_any_f64_bits(s: TaggedScalar) -> u64 {
    match s {
        TaggedScalar::Float64Bits(bits) => bits,
        _ => 0,
    }
}

pub open spec fn spec_from_any_bool(s: TaggedScalar) -> bool {
    match s {
        TaggedScalar::Boolean(v) => v,
        _ => false,
    }
}

pub open spec fn spec_from_any_utf8(s: TaggedScalar) -> Seq<char> {
    match s {
        TaggedScalar::Utf8(v) => v@,
        _ => Seq::<char>::empty(),
    }
}

pub open spec fn spec_from_any_binary(s: TaggedScalar) -> Seq<u8> {
    match s {
        TaggedScalar::Binary(v) => v@,
        _ => Seq::<u8>::empty(),
    }
}

pub fn from_any_i8(s: &TaggedScalar) -> (r: i8)
    ensures
        r == spec_from_any_i8(*s),
{
    match s {
        TaggedScalar::Int8(v) => *v,
        _ => 0,
    }
}

pub fn from_any_i16(s: &TaggedScalar) -> (r: i16)
    ensures
        r == spec_from_any_i16(*s),
{
    match s {
        TaggedScalar::Int16(v) => *v,
        _ => 0,
    }
}

pub fn from_any_i32(s: &TaggedScalar) -> (r: i32)
    ensures
        r == spec_from_any_i32(*s),
{
    match s {
        TaggedScalar::Int32(v) => *v,
        _ => 0,
    }
}

pub fn from_any_i64(s: &TaggedScalar) -> (r: i64)
    ensures
        r == spec_from_any_i64(*s),
{
    match s {
        TaggedScalar::Int64(v) => *v,
        _ => 0,
    }
}

pub fn from_any_u8(s: &TaggedScalar) -> (r: u8)
    ensures
        r == spec_from_any_u8(*s),
{
    match s {
        TaggedScalar::UInt8(v) => *v,
        _ => 0,
    }
}

pub fn from_any_u16(s: &TaggedScalar) -> (r: u16)
    ensures
        r == spec_from_any_u16(*s),
{
    match s {
        TaggedScalar::UInt16(v) => *v,
        _ => 0,
    }
}

pub fn from_any_u32(s: &TaggedScalar) -> (r: u32)
    ensures
        r == spec_from_any_u32(*s),
{
    match s {
        TaggedScalar::UInt32(v) => *v,
        _ => 0,
    }
}

pub fn from_any_u64(s: &TaggedScalar) -> (r: u64)
    ensures
        r == spec_from_any_u64(*s),
{
    match s {
        TaggedScalar::UInt64(v) => *v,
        _ => 0,
    }
}

/// Unwrap a 32-bit float as its IEEE-754 bit pattern; the default is the
/// bit pattern of positive zero.
pub fn from_any_f32_bits(s: &TaggedScalar) -> (r: u32)
    ensures
        r == spec_from_any_f32_bits(*s),
{
    match s {
        TaggedScalar::Float32Bits(bits) => *bits,
        _ => 0,
    }
}

/// Unwrap a 64-bit float as its IEEE-754 bit pattern; the default is the
/// bit pattern of positive zero.
pub fn from_any_f64_bits(s: &TaggedScalar) -> (r: u64)
    ensures
        r == spec_from_any_f64_bits(*s),
{
    match s {
        TaggedScalar::Float64Bits(bits) => *bits,
        _ => 0,
    }
}

pub fn from_any_bool(s: &TaggedScalar) -> (r: bool)
    ensures
        r == spec_from_any_bool(*s),
{
    match s {
        TaggedScalar::Boolean(v) => *v,
        _ => false,
    }
}

pub fn from_any_utf8(s: &TaggedScalar) -> (r: String)
    ensures
        r@ == spec_from_any_utf8(*s),
{
    match s {
        TaggedScalar::Utf8(v) => v.clone(),
        _ => String::new(),
    }
}

pub fn from_any_binary(s: &TaggedScalar) -> (r: Vec<u8>)
    ensures
        r@ == spec_from_any_binary(*s),
{
    match s {
        TaggedScalar::Binary(v) => v.clone(),
        _ => Vec::new(),
    }
}

/// Unwrapping with the null tag yields zero whatever the scalar holds;
/// callers that care must check the actual tag first.
pub fn from_any_null(_s: &TaggedScalar) -> (r: i64)
    ensures
        r == 0,
{
    0
}

/// Unwrapping with the unknown tag yields zero whatever the scalar holds;
/// callers that care must check the actual tag first.
pub fn from_any_unknown(_s: &TaggedScalar) -> (r: i64)
    ensures
        r == 0,
{
    0
}

// ------------------------------------------------------------------
// Laws of the conversion facility.
// ------------------------------------------------------------------

/// Round-trip identity: for every wrappable tag, unwrapping a freshly
/// wrapped value with the same tag gives the value back.
pub proof fn lemma_wrap_then_unwrap()
    ensures
        forall|v: i8| spec_from_any_i8(spec_to_any_i8(v)) == v,
        forall|v: i16| spec_from_any_i16(spec_to_any_i16(v)) == v,
        forall|v: i32| spec_from_any_i32(spec_to_any_i32(v)) == v,
        forall|v: i64| spec_from_any_i64(spec_to_any_i64(v)) == v,
        forall|v: u8| spec_from_any_u8(spec_to_any_u8(v)) == v,
        forall|v: u16| spec_from_any_u16(spec_to_any_u16(v)) == v,
        forall|v: u32| spec_from_any_u32(spec_to_any_u32(v)) == v,
        forall|v: u64| spec_from_any_u64(spec_to_any_u64(v)) == v,
        forall|bits: u32| spec_from_any_f32_bits(spec_to_any_f32_bits(bits)) == bits,
        forall|bits: u64| spec_from_any_f64_bits(spec_to_any_f64_bits(bits)) == bits,
        forall|v: bool| spec_from_any_bool(spec_to_any_bool(v)) == v,
        forall|v: String| spec_from_any_utf8(spec_to_any_utf8(v)) == v@,
        forall|v: Vec<u8>| spec_from_any_binary(spec_to_any_binary(v)) == v@,
{
}

/// Soft failure: unwrapping a scalar against any tag other than the one it
/// holds yields that tag's fixed default (zero, empty, `false`), never the
/// scalar's real payload.
pub proof fn lemma_unwrap_mismatch_defaults(s: TaggedScalar)
    ensures
        tag_of(s) != TypeTag::Int8 ==> spec_from_any_i8(s) == 0,
        tag_of(s) != TypeTag::Int16 ==> spec_from_any_i16(s) == 0,
        tag_of(s) != TypeTag::Int32 ==> spec_from_any_i32(s) == 0,
        tag_of(s) != TypeTag::Int64 ==> spec_from_any_i64(s) == 0,
        tag_of(s) != TypeTag::UInt8 ==> spec_from_any_u8(s) == 0,
        tag_of(s) != TypeTag::UInt16 ==> spec_from_any_u16(s) == 0,
        tag_of(s) != TypeTag::UInt32 ==> spec_from_any_u32(s) == 0,
        tag_of(s) != TypeTag::UInt64 ==> spec_from_any_u64(s) == 0,
        tag_of(s) != TypeTag::Float32 ==> spec_from_any_f32_bits(s) == 0,
        tag_of(s) != TypeTag::Float64 ==> spec_from_any_f64_bits(s) == 0,
        tag_of(s) != TypeTag::Boolean ==> spec_from_any_bool(s) == false,
        tag_of(s) != TypeTag::Utf8 ==> spec_from_any_utf8(s) == Seq::<char>::empty(),
        tag_of(s) != TypeTag::Binary ==> spec_from_any_binary(s) == Seq::<u8>::empty(),
{
}

} // verus!
