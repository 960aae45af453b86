//! The generic value model: a recursive tagged union representing a decoded
//! configuration value, plus the nesting-depth measure used to bound the
//! indentation arithmetic of the literal emitter.

use vstd::prelude::*;

verus! {

/// A decoded configuration value of any shape.
///
/// Composite variants exclusively own their children. Arrays are assumed
/// element-homogeneous: consumers inspect only the first element to decide
/// the element shape.
///
/// The float variants hold the plain decimal rendering of the host float
/// (as the host's float formatter produced it), not the float itself: the
/// emitters only ever read that text.
#[derive(Debug, PartialEq)]
pub enum GenericValue {
    Unit,
    Bool(bool),
    Char(char),
    I8(i8),
    I16(i16),
    I32(i32),
    I64(i64),
    U8(u8),
    U16(u16),
    U32(u32),
    U64(u64),
    ISize(isize),
    Usize(usize),
    F32(String),
    F64(String),
    String(String),
    Option(Option<Box<GenericValue>>),
    Array(Vec<GenericValue>),
    Struct(GenericStruct),
}

/// A decoded configuration struct: a name and its fields in insertion order.
///
/// Field order is significant: it drives both declaration field order and
/// literal field order.
#[derive(Debug, PartialEq)]
pub struct GenericStruct {
    pub struct_name: String,
    pub fields: Vec<(String, GenericValue)>,
}

/// How many indentation steps the literal emitter can add below this value:
/// arrays and structs indent their children one step further, optionals do
/// not, and childless values add nothing.
pub open spec fn nesting_depth(v: GenericValue) -> nat
    decreases v,
{
    match v {
        GenericValue::Option(ov) => match ov {
            Some(inner) => nesting_depth(*inner),
            None => 0,
        },
        GenericValue::Array(vs) => if vs@.len() == 0 {
            0
        } else {
            1 + max_elem_depth(vs@)
        },
        GenericValue::Struct(gs) => struct_nesting_depth(gs),
        _ => 0,
    }
}

/// The largest nesting depth among the elements of a sequence of values.
pub open spec fn max_elem_depth(vs: Seq<GenericValue>) -> nat
    decreases vs,
{
    if vs.len() == 0 {
        0
    } else {
        let rest = max_elem_depth(vs.drop_last());
        let last = nesting_depth(vs.last());
        if last >= rest {
            last
        } else {
            rest
        }
    }
}

/// How many indentation steps the literal emitter can add below this struct.
pub open spec fn struct_nesting_depth(gs: GenericStruct) -> nat
    decreases gs,
{
    if gs.fields@.len() == 0 {
        0
    } else {
        1 + max_field_depth(gs.fields@)
    }
}

/// The largest nesting depth among the field values of a struct.
pub open spec fn max_field_depth(fields: Seq<(String, GenericValue)>) -> nat
    decreases fields,
{
    if fields.len() == 0 {
        0
    } else {
        let rest = max_field_depth(fields.drop_last());
        let last = nesting_depth(fields.last().1);
        if last >= rest {
            last
        } else {
            rest
        }
    }
}

/// Each element's depth is bounded by the maximum over the sequence.
pub proof fn lemma_elem_depth_le(vs: Seq<GenericValue>, i: int)
    requires
        0 <= i < vs.len(),
    ensures
        nesting_depth(vs[i]) <= max_elem_depth(vs),
    decreases vs,
{
    if i == vs.len() - 1 {
        assert(vs.last() == vs[i]);
    } else {
        lemma_elem_depth_le(vs.drop_last(), i);
        assert(vs.drop_last()[i] == vs[i]);
    }
}

/// Each field value's depth is bounded by the maximum over the fields.
pub proof fn lemma_field_depth_le(fields: Seq<(String, GenericValue)>, i: int)
    requires
        0 <= i < fields.len(),
    ensures
        nesting_depth(fields[i].1) <= max_field_depth(fields),
    decreases fields,
{
    if i == fields.len() - 1 {
        assert(fields.last() == fields[i]);
    } else {
        lemma_field_depth_le(fields.drop_last(), i);
        assert(fields.drop_last()[i] == fields[i]);
    }
}

} // verus!
