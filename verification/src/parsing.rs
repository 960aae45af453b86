//! The bridge from a parsed configuration to the generic value model: the
//! parsed fields are converted one by one, in order, into the fields of the
//! outer `Config` struct.

use crate::options::{FloatSize, IntSize, StructOptions};
use crate::value::{GenericStruct, GenericValue};
use vstd::prelude::*;

verus! {

/// The fields of a parsed configuration, in order, before conversion to
/// generic values.
pub type ParsedFields<T> = Vec<(String, T)>;

/// Whether `out` is a possible result of the conversion function on the
/// root scope name, a key with the given text, the given value and the
/// given options.
pub open spec fn converted_from<T, F: Fn(&str, &str, T, &StructOptions) -> GenericValue>(
    convert_fn: F,
    key_text: Seq<char>,
    value: T,
    options: &StructOptions,
    out: GenericValue,
) -> bool {
    exists|scope: &str, key: &str|
        scope@ == "_Config"@ && key@ == key_text && call_ensures(
            convert_fn,
            (scope, key, value, options),
            out,
        )
}

/// Builds the outer `Config` struct from parsed fields: each field keeps
/// its key and holds what the conversion function made of its value, in
/// the original order.
#[verifier::loop_isolation(false)]
pub fn parsed_to_generic_struct<T, F: Fn(&str, &str, T, &StructOptions) -> GenericValue>(
    parsed_config: ParsedFields<T>,
    options: &StructOptions,
    convert_fn: F,
) -> (r: GenericStruct)
    requires
        forall|scope: &str, key: &str, value: T, opts: &StructOptions|
            call_requires(convert_fn, (scope, key, value, opts)),
    ensures
        r.struct_name@ == "Config"@,
        r.fields@.len() == parsed_config@.len(),
        forall|i: int|
            0 <= i < parsed_config@.len() ==> (#[trigger] r.fields@[i]).0 == parsed_config@[i].0,
        forall|i: int|
            0 <= i < parsed_config@.len() ==> converted_from(
                convert_fn,
                parsed_config@[i].0@,
                parsed_config@[i].1,
                options,
                (#[trigger] r.fields@[i]).1,
            ),
{
    let struct_name = "Config".to_owned();
    let ghost orig = parsed_config@;
    let mut parsed = parsed_config;
    let mut fields: Vec<(String, GenericValue)> = Vec::new();
    while parsed.len() > 0
        invariant
            forall|scope: &str, key: &str, value: T, opts: &StructOptions|
                call_requires(convert_fn, (scope, key, value, opts)),
            fields@.len() + parsed@.len() == orig.len(),
            parsed@ =~= orig.skip(fields@.len() as int),
            forall|i: int|
                0 <= i < fields@.len() ==> (#[trigger] fields@[i]).0 == orig[i].0,
            forall|i: int|
                0 <= i < fields@.len() ==> converted_from(
                    convert_fn,
                    orig[i].0@,
                    orig[i].1,
                    options,
                    (#[trigger] fields@[i]).1,
                ),
        decreases parsed@.len(),
    {
        let ghost done = fields@.len() as int;
        let pair = parsed.remove(0);
        proof {
            assert(pair == orig.skip(done)[0]);
            assert(orig.skip(done)[0] == orig[done]);
            assert(orig.skip(done).skip(1) =~= orig.skip(done + 1));
        }
        let (key, value) = pair;
        let scope_name = "_Config";
        let key_str = key.as_str();
        let converted = convert_fn(scope_name, key_str, value, options);
        let ghost earlier = fields@;
        fields.push((key, converted));
        proof {
            assert(forall|i: int|
                0 <= i < fields@.len() ==> (#[trigger] fields@[i]).0 == orig[i].0);
            assert(scope_name@ == "_Config"@ && key_str@ == orig[done].0@ && call_ensures(
                convert_fn,
                (scope_name, key_str, orig[done].1, options),
                (fields@[done]).1,
            ));
            assert(converted_from(
                convert_fn,
                orig[done].0@,
                orig[done].1,
                options,
                (fields@[done]).1,
            ));
            assert forall|i: int| 0 <= i < fields@.len() implies converted_from(
                convert_fn,
                orig[i].0@,
                orig[i].1,
                options,
                (#[trigger] fields@[i]).1,
            ) by {
                if i < done {
                    assert(fields@[i] == earlier[i]);
                }
            }
        }
    }
    GenericStruct { struct_name, fields }
}

/// The generic value holding a 64-bit integer at the preferred width,
/// truncating where the preferred width is narrower.
pub open spec fn spec_preferred_int(value: i64, preferred: IntSize) -> GenericValue {
    match preferred {
        IntSize::I8 => GenericValue::I8(value as i8),
        IntSize::I16 => GenericValue::I16(value as i16),
        IntSize::I32 => GenericValue::I32(value as i32),
        IntSize::I64 => GenericValue::I64(value),
        IntSize::ISize => GenericValue::ISize(value as isize),
    }
}

/// Wraps an integer in the variant the preferred integer size selects.
pub fn preferred_int(value: i64, preferred: IntSize) -> (r: GenericValue)
    ensures
        r == spec_preferred_int(value, preferred),
{
    match preferred {
        IntSize::I8 => GenericValue::I8(#[verifier::truncate] (value as i8)),
        IntSize::I16 => GenericValue::I16(#[verifier::truncate] (value as i16)),
        IntSize::I32 => GenericValue::I32(#[verifier::truncate] (value as i32)),
        IntSize::I64 => GenericValue::I64(value),
        IntSize::ISize => GenericValue::ISize(#[verifier::truncate] (value as isize)),
    }
}

/// The generic value holding a float rendering at the preferred width.
pub open spec fn spec_preferred_float(rendered: String, preferred: FloatSize) -> GenericValue {
    match preferred {
        FloatSize::F32 => GenericValue::F32(rendered),
        FloatSize::F64 => GenericValue::F64(rendered),
    }
}

/// Wraps an already-rendered float text in the variant the preferred float
/// size selects. The rendering itself (host float to decimal text) is the
/// caller's, since the value model holds float renderings, not floats.
pub fn preferred_float_rendering(rendered: String, preferred: FloatSize) -> (r: GenericValue)
    ensures
        r == spec_preferred_float(rendered, preferred),
{
    match preferred {
        FloatSize::F32 => GenericValue::F32(rendered),
        FloatSize::F64 => GenericValue::F64(rendered),
    }
}

} // verus!
