//! The generation core: type inference for a generic value, declaration
//! emission for a struct tree, and literal emission for a value tree. The
//! three walks share one array/slice decision — a non-empty array whose
//! length is at most the configured threshold becomes a fixed-length array,
//! every other array becomes a borrowed slice — so the emitted type and the
//! emitted literal can never disagree for the same input.

use crate::options::{spec_should_derive, SerdeSupport, StructOptions};
use crate::text::{
    dec_int, dec_nat, i64_dec_string, join_texts, lemma_join_push, make_spaces, push_char, spaces,
    str_contains_char, u64_dec_string, usize_dec_string,
};
use crate::value::{
    lemma_elem_depth_le, lemma_field_depth_le, max_elem_depth, max_field_depth, nesting_depth,
    struct_nesting_depth, GenericStruct, GenericValue,
};
use convert_case::{Case, Casing};
use vstd::prelude::*;

verus! {

/// What the snake-case conversion of a piece of text yields.
pub uninterp spec fn snake_of(s: Seq<char>) -> Seq<char>;

/// Relies on convert_case's Casing::to_case with the snake-case target:
/// the result depends on the input characters alone.
#[verifier::external_body]
fn to_snake_case(s: &str) -> (r: String)
    ensures
        r@ == snake_of(s@),
{
    s.to_case(Case::Snake)
}

/// The static type expression inferred for a value under the given array
/// threshold.
pub open spec fn spec_type_text(v: GenericValue, max: nat) -> Seq<char>
    decreases v,
{
    match v {
        GenericValue::Unit => "()"@,
        GenericValue::Bool(_) => "bool"@,
        GenericValue::Char(_) => "char"@,
        GenericValue::I8(_) => "i8"@,
        GenericValue::I16(_) => "i16"@,
        GenericValue::I32(_) => "i32"@,
        GenericValue::I64(_) => "i64"@,
        GenericValue::U8(_) => "u8"@,
        GenericValue::U16(_) => "u16"@,
        GenericValue::U32(_) => "u32"@,
        GenericValue::U64(_) => "u64"@,
        GenericValue::ISize(_) => "isize"@,
        GenericValue::Usize(_) => "usize"@,
        GenericValue::F32(_) => "f32"@,
        GenericValue::F64(_) => "f64"@,
        GenericValue::String(_) => "Cow<'static, str>"@,
        GenericValue::Option(ov) => "Option<"@ + (match ov {
            Some(inner) => spec_type_text(*inner, max),
            None => "()"@,
        }) + ">"@,
        GenericValue::Array(vs) => {
            let elem = if vs@.len() > 0 {
                spec_type_text(vs@[0], max)
            } else {
                "()"@
            };
            if vs@.len() > 0 && vs@.len() <= max {
                "["@ + elem + "; "@ + dec_nat(vs@.len()) + "]"@
            } else {
                "Cow<'static, ["@ + elem + "]>"@
            }
        },
        GenericValue::Struct(gs) => gs.struct_name@,
    }
}

/// The float literal for an already-rendered decimal text: the text itself
/// when it carries a decimal point, otherwise the text with ".0" appended,
/// so an integral float is never rendered bare.
pub open spec fn spec_float_text(t: Seq<char>) -> Seq<char> {
    if t.contains('.') {
        t
    } else {
        t + seq!['.', '0']
    }
}

/// The literal expression for a value at the given indentation, under the
/// given array threshold.
pub open spec fn spec_value_text(v: GenericValue, ind: nat, max: nat) -> Seq<char>
    decreases v,
{
    match v {
        GenericValue::Unit => "()"@,
        GenericValue::Bool(b) => if b {
            "true"@
        } else {
            "false"@
        },
        GenericValue::Char(c) => seq!['\''] + seq![c] + seq!['\''],
        GenericValue::I8(x) => dec_int(x as int),
        GenericValue::I16(x) => dec_int(x as int),
        GenericValue::I32(x) => dec_int(x as int),
        GenericValue::I64(x) => dec_int(x as int),
        GenericValue::U8(x) => dec_nat(x as nat),
        GenericValue::U16(x) => dec_nat(x as nat),
        GenericValue::U32(x) => dec_nat(x as nat),
        GenericValue::U64(x) => dec_nat(x as nat),
        GenericValue::ISize(x) => dec_int(x as int),
        GenericValue::Usize(x) => dec_nat(x as nat),
        GenericValue::F32(t) => spec_float_text(t@),
        GenericValue::F64(t) => spec_float_text(t@),
        GenericValue::String(s) => "Cow::Borrowed(\""@ + s@ + "\")"@,
        GenericValue::Option(ov) => match ov {
            Some(inner) => "Some("@ + spec_value_text(*inner, ind, max) + ")"@,
            None => "None"@,
        },
        GenericValue::Array(vs) => {
            let parts = spec_elem_texts(vs@, (ind + 4) as nat, max);
            if vs@.len() > 0 && vs@.len() <= max {
                "["@ + join_texts(parts, ", "@) + "]"@
            } else {
                "Cow::Borrowed(&["@ + join_texts(parts, ", "@) + "])"@
            }
        },
        GenericValue::Struct(gs) => spec_struct_value_text(gs, ind, max),
    }
}

/// The literal expressions of a sequence of values, in order, each at the
/// given indentation.
pub open spec fn spec_elem_texts(vs: Seq<GenericValue>, ind: nat, max: nat) -> Seq<Seq<char>>
    decreases vs,
{
    if vs.len() == 0 {
        Seq::empty()
    } else {
        spec_elem_texts(vs.drop_last(), ind, max).push(spec_value_text(vs.last(), ind, max))
    }
}

/// The field lines of a struct literal: one `name: value,` line per field
/// in order, each indented one step past the struct.
pub open spec fn spec_field_value_body(
    fields: Seq<(String, GenericValue)>,
    ind: nat,
    max: nat,
) -> Seq<char>
    decreases fields,
{
    if fields.len() == 0 {
        Seq::empty()
    } else {
        spec_field_value_body(fields.drop_last(), ind, max) + spaces((ind + 4) as nat) + snake_of(
            fields.last().0@,
        ) + ": "@ + spec_value_text(fields.last().1, (ind + 4) as nat, max) + ",\n"@
    }
}

/// The literal expression for a struct value: the struct name, one field
/// per line one step deeper, and the closing brace back at the struct's own
/// indentation.
pub open spec fn spec_struct_value_text(gs: GenericStruct, ind: nat, max: nat) -> Seq<char>
    decreases gs,
{
    gs.struct_name@ + " {\n"@ + spec_field_value_body(gs.fields@, ind, max) + spaces(ind) + "}"@
}

/// The number of element texts equals the number of elements.
pub proof fn lemma_elem_texts_len(vs: Seq<GenericValue>, ind: nat, max: nat)
    ensures
        spec_elem_texts(vs, ind, max).len() == vs.len(),
    decreases vs,
{
    if vs.len() > 0 {
        lemma_elem_texts_len(vs.drop_last(), ind, max);
    }
}

/// Each element text is the literal expression of the matching element.
pub proof fn lemma_elem_texts_index(vs: Seq<GenericValue>, ind: nat, max: nat, i: int)
    requires
        0 <= i < vs.len(),
    ensures
        spec_elem_texts(vs, ind, max).len() == vs.len(),
        spec_elem_texts(vs, ind, max)[i] == spec_value_text(vs[i], ind, max),
    decreases vs,
{
    lemma_elem_texts_len(vs, ind, max);
    if i == vs.len() - 1 {
        assert(vs.last() == vs[i]);
    } else {
        lemma_elem_texts_index(vs.drop_last(), ind, max, i);
        assert(vs.drop_last()[i] == vs[i]);
    }
}

/// The type expression for a value, with slices for every non-empty array
/// (the zero threshold).
pub fn type_string(value: &GenericValue) -> (r: String)
    ensures
        r@ == spec_type_text(*value, 0),
{
    type_string_with_options(value, 0)
}

/// The type expression inferred for a value under the given array
/// threshold.
pub fn type_string_with_options(value: &GenericValue, max_array_size: usize) -> (r: String)
    ensures
        r@ == spec_type_text(*value, max_array_size as nat),
    decreases *value,
{
    match value {
        GenericValue::Unit => "()".to_owned(),
        GenericValue::Bool(_) => "bool".to_owned(),
        GenericValue::Char(_) => "char".to_owned(),
        GenericValue::I8(_) => "i8".to_owned(),
        GenericValue::I16(_) => "i16".to_owned(),
        GenericValue::I32(_) => "i32".to_owned(),
        GenericValue::I64(_) => "i64".to_owned(),
        GenericValue::U8(_) => "u8".to_owned(),
        GenericValue::U16(_) => "u16".to_owned(),
        GenericValue::U32(_) => "u32".to_owned(),
        GenericValue::U64(_) => "u64".to_owned(),
        GenericValue::ISize(_) => "isize".to_owned(),
        GenericValue::Usize(_) => "usize".to_owned(),
        GenericValue::F32(_) => "f32".to_owned(),
        GenericValue::F64(_) => "f64".to_owned(),
        GenericValue::String(_) => "Cow<'static, str>".to_owned(),
        GenericValue::Option(ov) => {
            let mut s = String::new();
            s.append("Option<");
            match ov {
                Some(inner) => {
                    let element_type = type_string_with_options(&**inner, max_array_size);
                    s.append(element_type.as_str());
                },
                None => {
                    s.append("()");
                },
            }
            s.append(">");
            s
        },
        GenericValue::Array(vs) => {
            let element_type = if vs.len() > 0 {
                type_string_with_options(&vs[0], max_array_size)
            } else {
                "()".to_owned()
            };
            if vs.len() > 0 && vs.len() <= max_array_size {
                let mut s = String::new();
                s.append("[");
                s.append(element_type.as_str());
                s.append("; ");
                let len_text = usize_dec_string(vs.len());
                s.append(len_text.as_str());
                s.append("]");
                s
            } else {
                let mut s = String::new();
                s.append("Cow<'static, [");
                s.append(element_type.as_str());
                s.append("]>");
                s
            }
        },
        GenericValue::Struct(gs) => gs.struct_name.clone(),
    }
}

/// The float literal for an already-rendered decimal text: appends ".0"
/// when the text carries no decimal point, so an integral float is never
/// rendered bare.
pub fn float_string(rendered: &str) -> (r: String)
    ensures
        r@ == spec_float_text(rendered@),
{
    let mut result = rendered.to_owned();
    if !str_contains_char(rendered, '.') {
        result.append(".0");
        proof {
            reveal_strlit(".0");
            assert(".0"@ =~= seq!['.', '0']);
        }
    }
    result
}

/// The literal expression for a value at the given indentation, under the
/// given array threshold. Mirrors the type side's array/slice decision
/// exactly.
pub fn value_string(value: &GenericValue, indentation: usize, max_array_size: usize) -> (r: String)
    requires
        indentation + 4 * nesting_depth(*value) <= usize::MAX,
    ensures
        r@ == spec_value_text(*value, indentation as nat, max_array_size as nat),
    decreases *value,
{
    match value {
        GenericValue::Unit => "()".to_owned(),
        GenericValue::Bool(b) => if *b {
            "true".to_owned()
        } else {
            "false".to_owned()
        },
        GenericValue::Char(c) => {
            let mut s = String::new();
            push_char(&mut s, '\'');
            push_char(&mut s, *c);
            push_char(&mut s, '\'');
            s
        },
        GenericValue::I8(x) => i64_dec_string(*x as i64),
        GenericValue::I16(x) => i64_dec_string(*x as i64),
        GenericValue::I32(x) => i64_dec_string(*x as i64),
        GenericValue::I64(x) => i64_dec_string(*x),
        GenericValue::U8(x) => u64_dec_string(*x as u64),
        GenericValue::U16(x) => u64_dec_string(*x as u64),
        GenericValue::U32(x) => u64_dec_string(*x as u64),
        GenericValue::U64(x) => u64_dec_string(*x),
        GenericValue::ISize(x) => i64_dec_string(*x as i64),
        GenericValue::Usize(x) => u64_dec_string(*x as u64),
        GenericValue::F32(t) => float_string(t.as_str()),
        GenericValue::F64(t) => float_string(t.as_str()),
        GenericValue::String(text) => {
            let mut s = String::new();
            s.append("Cow::Borrowed(\"");
            s.append(text.as_str());
            s.append("\")");
            s
        },
        GenericValue::Option(ov) => {
            match ov {
                Some(inner) => {
                    let mut s = String::new();
                    s.append("Some(");
                    let inner_text = value_string(&**inner, indentation, max_array_size);
                    s.append(inner_text.as_str());
                    s.append(")");
                    s
                },
                None => "None".to_owned(),
            }
        },
        GenericValue::Array(vs) => {
            let n = vs.len();
            proof {
                if n > 0 {
                    assert(nesting_depth(*value) == 1 + max_elem_depth(vs@));
                }
            }
            let mut joined = String::new();
            let mut i: usize = 0;
            while i < n
                invariant
                    i <= n,
                    n == vs@.len(),
                    *value == GenericValue::Array(*vs),
                    n > 0 ==> indentation + 4 + 4 * max_elem_depth(vs@) <= usize::MAX,
                    joined@ == join_texts(
                        spec_elem_texts(
                            vs@.take(i as int),
                            (indentation + 4) as nat,
                            max_array_size as nat,
                        ),
                        ", "@,
                    ),
                decreases n - i,
            {
                proof {
                    lemma_elem_depth_le(vs@, i as int);
                    assert(decreases_to!(*value => value->Array_0));
                    assert(decreases_to!(value->Array_0 => value->Array_0@));
                    assert(decreases_to!(value->Array_0@ => value->Array_0@[i as int]));
                    assert(vs@[i as int] == value->Array_0@[i as int]);
                    assert(decreases_to!(*value => vs@[i as int]));
                }
                let child_indentation = indentation + 4;
                let element_text = value_string(&vs[i], child_indentation, max_array_size);
                if i > 0 {
                    proof {
                        lemma_elem_texts_len(
                            vs@.take(i as int),
                            (indentation + 4) as nat,
                            max_array_size as nat,
                        );
                    }
                    joined.append(", ");
                }
                joined.append(element_text.as_str());
                proof {
                    let ghost ind4 = (indentation + 4) as nat;
                    let ghost maxn = max_array_size as nat;
                    let ghost pre = vs@.take(i as int);
                    let ghost cur = vs@.take(i as int + 1);
                    assert(cur.drop_last() =~= pre);
                    assert(cur.last() == vs@[i as int]);
                    assert(spec_elem_texts(cur, ind4, maxn) == spec_elem_texts(pre, ind4, maxn).push(
                        spec_value_text(vs@[i as int], ind4, maxn),
                    ));
                    lemma_elem_texts_len(pre, ind4, maxn);
                    lemma_join_push(
                        spec_elem_texts(pre, ind4, maxn),
                        ", "@,
                        spec_value_text(vs@[i as int], ind4, maxn),
                    );
                }
                i = i + 1;
            }
            proof {
                assert(vs@.take(n as int) =~= vs@);
            }
            if n > 0 && n <= max_array_size {
                let mut s = String::new();
                s.append("[");
                s.append(joined.as_str());
                s.append("]");
                s
            } else {
                let mut s = String::new();
                s.append("Cow::Borrowed(&[");
                s.append(joined.as_str());
                s.append("])");
                s
            }
        },
        GenericValue::Struct(gs) => struct_value_string(gs, indentation, max_array_size),
    }
}

/// The literal expression instantiating a struct value at the given
/// indentation, under the given array threshold.
pub fn struct_value_string(value: &GenericStruct, indentation: usize, max_array_size: usize) -> (r:
    String)
    requires
        indentation + 4 * struct_nesting_depth(*value) <= usize::MAX,
    ensures
        r@ == spec_struct_value_text(*value, indentation as nat, max_array_size as nat),
    decreases *value,
{
    let n = value.fields.len();
    proof {
        if n > 0 {
            assert(struct_nesting_depth(*value) == 1 + max_field_depth(value.fields@));
        }
    }
    let mut body = String::new();
    let mut i: usize = 0;
    while i < n
        invariant
            i <= n,
            n == value.fields@.len(),
            n > 0 ==> indentation + 4 + 4 * max_field_depth(value.fields@) <= usize::MAX,
            body@ == spec_field_value_body(
                value.fields@.take(i as int),
                indentation as nat,
                max_array_size as nat,
            ),
        decreases n - i,
    {
        proof {
            lemma_field_depth_le(value.fields@, i as int);
        }
        let child_indentation = indentation + 4;
        let pad = make_spaces(child_indentation);
        body.append(pad.as_str());
        let field = &value.fields[i];
        let snake_name = to_snake_case(field.0.as_str());
        body.append(snake_name.as_str());
        body.append(": ");
        let field_text = value_string(&field.1, child_indentation, max_array_size);
        body.append(field_text.as_str());
        body.append(",\n");
        proof {
            let ghost ind = indentation as nat;
            let ghost maxn = max_array_size as nat;
            let ghost pre = value.fields@.take(i as int);
            let ghost cur = value.fields@.take(i as int + 1);
            assert(cur.drop_last() =~= pre);
            assert(cur.last() == value.fields@[i as int]);
            assert(spec_field_value_body(cur, ind, maxn) == spec_field_value_body(pre, ind, maxn)
                + spaces((ind + 4) as nat) + snake_of(value.fields@[i as int].0@) + ": "@
                + spec_value_text(value.fields@[i as int].1, (ind + 4) as nat, maxn) + ",\n"@);
        }
        i = i + 1;
    }
    proof {
        assert(value.fields@.take(n as int) =~= value.fields@);
    }
    let mut s = String::new();
    s.append(value.struct_name.as_str());
    s.append(" {\n");
    s.append(body.as_str());
    let pad = make_spaces(indentation);
    s.append(pad.as_str());
    s.append("}");
    s
}

/// The views of a sequence of trait names, in order.
pub open spec fn spec_trait_name_texts(names: Seq<String>) -> Seq<Seq<char>>
    decreases names,
{
    if names.len() == 0 {
        Seq::empty()
    } else {
        spec_trait_name_texts(names.drop_last()).push(names.last()@)
    }
}

/// Each trait name text is the view of the matching name.
pub proof fn lemma_trait_name_texts(names: Seq<String>)
    ensures
        spec_trait_name_texts(names).len() == names.len(),
        forall|i: int|
            0 <= i < names.len() ==> #[trigger] spec_trait_name_texts(names)[i] == names[i]@,
    decreases names,
{
    if names.len() > 0 {
        lemma_trait_name_texts(names.drop_last());
        assert forall|i: int| 0 <= i < names.len() implies #[trigger] spec_trait_name_texts(
            names,
        )[i] == names[i]@ by {
            if i < names.len() - 1 {
                assert(names.drop_last()[i] == names[i]);
            } else {
                assert(names.last() == names[i]);
            }
        }
    }
}

/// The derive-trait texts for the options: the configured list, followed by
/// the serde trait paths the serde support resolves to, serialize before
/// deserialize, under the selected macro-source prefix.
pub open spec fn spec_derived_trait_texts(o: StructOptions) -> Seq<Seq<char>> {
    let base = spec_trait_name_texts(o.derived_traits@);
    match spec_should_derive(o.serde_support) {
        None => base,
        Some((ser, de)) => {
            let prefix = if o.use_serde_derive_crate {
                "serde_derive::"@
            } else {
                "serde::"@
            };
            let with_ser = if ser {
                base.push(prefix + "Serialize"@)
            } else {
                base
            };
            if de {
                with_ser.push(prefix + "Deserialize"@)
            } else {
                with_ser
            }
        },
    }
}

/// The derive-annotation line for the options: nothing at all when no trait
/// applies, otherwise one derive attribute line.
pub open spec fn spec_derive_line(o: StructOptions) -> Seq<char> {
    let traits = spec_derived_trait_texts(o);
    if traits.len() == 0 {
        Seq::empty()
    } else {
        "#[derive("@ + join_texts(traits, ", "@) + ")]\n"@
    }
}

/// The field lines of a struct declaration: one `pub name: type,` line per
/// field in order.
pub open spec fn spec_field_decl_lines(
    fields: Seq<(String, GenericValue)>,
    max: nat,
) -> Seq<Seq<char>>
    decreases fields,
{
    if fields.len() == 0 {
        Seq::empty()
    } else {
        spec_field_decl_lines(fields.drop_last(), max).push(
            "    pub "@ + snake_of(fields.last().0@) + ": "@ + spec_type_text(fields.last().1, max)
                + ","@,
        )
    }
}

/// The number of field declaration lines equals the number of fields.
pub proof fn lemma_field_decl_lines_len(fields: Seq<(String, GenericValue)>, max: nat)
    ensures
        spec_field_decl_lines(fields, max).len() == fields.len(),
    decreases fields,
{
    if fields.len() > 0 {
        lemma_field_decl_lines_len(fields.drop_last(), max);
    }
}

/// The declaration block for one struct: the optional derive line, the
/// lint-allowance header, and the field lines.
pub open spec fn spec_struct_block(gs: GenericStruct, o: StructOptions) -> Seq<char> {
    spec_derive_line(o)
        + "#[allow(non_camel_case_types, non_snake_case, clippy::struct_excessive_bools, clippy::struct_field_names)]\npub struct "@
        + gs.struct_name@ + " {\n"@ + join_texts(
        spec_field_decl_lines(gs.fields@, o.max_array_size as nat),
        "\n"@,
    ) + "\n}\n"@
}

/// The declaration text for a struct tree: the struct's own block first,
/// then the blocks of every struct reachable through its fields, in field
/// order, pre-order, with no deduplication.
pub open spec fn spec_declarations(gs: GenericStruct, o: StructOptions) -> Seq<char>
    decreases gs,
{
    spec_struct_block(gs, o) + spec_nested_decls(gs.fields@, o)
}

/// The declaration text contributed by the fields of a struct, in order.
pub open spec fn spec_nested_decls(fields: Seq<(String, GenericValue)>, o: StructOptions) -> Seq<
    char,
>
    decreases fields,
{
    if fields.len() == 0 {
        Seq::empty()
    } else {
        spec_nested_decls(fields.drop_last(), o) + spec_nested_one(fields.last().1, o)
    }
}

/// The declaration text contributed by one field value: the declarations
/// of a struct field, the declarations of the first element of an array
/// field when that element is a struct (no other array position is
/// inspected), and nothing otherwise.
pub open spec fn spec_nested_one(v: GenericValue, o: StructOptions) -> Seq<char>
    decreases v,
{
    match v {
        GenericValue::Struct(gs) => spec_declarations(gs, o),
        GenericValue::Array(vs) => if vs@.len() > 0 {
            spec_first_elem_decls(vs@[0], o)
        } else {
            Seq::empty()
        },
        _ => Seq::empty(),
    }
}

/// The declaration text contributed by the first element of an array
/// field: a struct's declarations, nothing for any other element shape.
pub open spec fn spec_first_elem_decls(v: GenericValue, o: StructOptions) -> Seq<char>
    decreases v,
{
    match v {
        GenericValue::Struct(gs) => spec_declarations(gs, o),
        _ => Seq::empty(),
    }
}

/// The derive-annotation line for the options, as text: empty when no
/// trait applies.
fn derive_line_string(options: &StructOptions) -> (r: String)
    ensures
        r@ == spec_derive_line(*options),
{
    let ghost texts = spec_derived_trait_texts(*options);
    let mut derived: Vec<String> = Vec::new();
    let n = options.derived_traits.len();
    let mut i: usize = 0;
    while i < n
        invariant
            i <= n,
            n == options.derived_traits@.len(),
            derived@.len() == i,
            forall|j: int| 0 <= j < i ==> #[trigger] derived@[j]@ == options.derived_traits@[j]@,
        decreases n - i,
    {
        derived.push(options.derived_traits[i].clone());
        i = i + 1;
    }
    proof {
        lemma_trait_name_texts(options.derived_traits@);
    }
    match options.serde_support.should_derive_ser_de() {
        None => {},
        Some((ser, de)) => {
            if ser {
                let mut t = String::new();
                if options.use_serde_derive_crate {
                    t.append("serde_derive::");
                } else {
                    t.append("serde::");
                }
                t.append("Serialize");
                derived.push(t);
            }
            if de {
                let mut t = String::new();
                if options.use_serde_derive_crate {
                    t.append("serde_derive::");
                } else {
                    t.append("serde::");
                }
                t.append("Deserialize");
                derived.push(t);
            }
        },
    }
    proof {
        assert(derived@.len() == texts.len());
        assert(forall|j: int| 0 <= j < texts.len() ==> #[trigger] derived@[j]@ == texts[j]);
    }
    if derived.len() == 0 {
        String::new()
    } else {
        let mut joined = String::new();
        let m = derived.len();
        let mut j: usize = 0;
        while j < m
            invariant
                j <= m,
                m == derived@.len(),
                m == texts.len(),
                forall|k: int| 0 <= k < m ==> #[trigger] derived@[k]@ == texts[k],
                joined@ == join_texts(texts.take(j as int), ", "@),
            decreases m - j,
        {
            if j > 0 {
                joined.append(", ");
            }
            joined.append(derived[j].as_str());
            proof {
                assert(texts.take(j as int + 1).drop_last() =~= texts.take(j as int));
                assert(texts.take(j as int + 1).last() == texts[j as int]);
                assert(texts.take(j as int + 1) =~= texts.take(j as int).push(texts[j as int]));
                lemma_join_push(texts.take(j as int), ", "@, texts[j as int]);
            }
            j = j + 1;
        }
        proof {
            assert(texts.take(m as int) =~= texts);
        }
        let mut s = String::new();
        s.append("#[derive(");
        s.append(joined.as_str());
        s.append(")]\n");
        s
    }
}

/// Appends the declaration text for the struct tree to the buffer: the
/// struct's own block, then the blocks of every struct reachable through
/// its fields, pre-order.
fn generate_struct_declarations(
    output: &mut String,
    struct_value: &GenericStruct,
    options: &StructOptions,
)
    ensures
        final(output)@ == old(output)@ + spec_declarations(*struct_value, *options),
    decreases *struct_value,
{
    let n = struct_value.fields.len();
    let mut joined_fields = String::new();
    let mut i: usize = 0;
    while i < n
        invariant
            i <= n,
            n == struct_value.fields@.len(),
            joined_fields@ == join_texts(
                spec_field_decl_lines(
                    struct_value.fields@.take(i as int),
                    options.max_array_size as nat,
                ),
                "\n"@,
            ),
        decreases n - i,
    {
        proof {
            lemma_field_decl_lines_len(
                struct_value.fields@.take(i as int),
                options.max_array_size as nat,
            );
        }
        if i > 0 {
            joined_fields.append("\n");
        }
        let field = &struct_value.fields[i];
        joined_fields.append("    pub ");
        let snake_name = to_snake_case(field.0.as_str());
        joined_fields.append(snake_name.as_str());
        joined_fields.append(": ");
        let type_text = type_string_with_options(&field.1, options.max_array_size);
        joined_fields.append(type_text.as_str());
        joined_fields.append(",");
        proof {
            let ghost maxn = options.max_array_size as nat;
            let ghost pre = struct_value.fields@.take(i as int);
            let ghost cur = struct_value.fields@.take(i as int + 1);
            let ghost line = "    pub "@ + snake_of(struct_value.fields@[i as int].0@) + ": "@
                + spec_type_text(struct_value.fields@[i as int].1, maxn) + ","@;
            assert(cur.drop_last() =~= pre);
            assert(cur.last() == struct_value.fields@[i as int]);
            assert(spec_field_decl_lines(cur, maxn) == spec_field_decl_lines(pre, maxn).push(line));
            lemma_join_push(spec_field_decl_lines(pre, maxn), "\n"@, line);
            assert(joined_fields@ =~= join_texts(spec_field_decl_lines(cur, maxn), "\n"@));
        }
        i = i + 1;
    }
    proof {
        assert(struct_value.fields@.take(n as int) =~= struct_value.fields@);
    }
    let derive_line = derive_line_string(options);
    output.append(derive_line.as_str());
    output.append(
        "#[allow(non_camel_case_types, non_snake_case, clippy::struct_excessive_bools, clippy::struct_field_names)]\npub struct ",
    );
    output.append(struct_value.struct_name.as_str());
    output.append(" {\n");
    output.append(joined_fields.as_str());
    output.append("\n}\n");
    proof {
        assert(output@ =~= old(output)@ + spec_struct_block(*struct_value, *options));
    }
    let ghost base = output@;
    let mut i: usize = 0;
    while i < n
        invariant
            i <= n,
            n == struct_value.fields@.len(),
            output@ == base + spec_nested_decls(struct_value.fields@.take(i as int), *options),
        decreases n - i,
    {
        let ghost before = output@;
        let field = &struct_value.fields[i];
        match &field.1 {
            GenericValue::Struct(gs) => {
                proof {
                    assert(decreases_to!(*struct_value => struct_value.fields));
                    assert(decreases_to!(struct_value.fields => struct_value.fields@));
                    assert(decreases_to!(
                        struct_value.fields@ => struct_value.fields@[i as int]));
                    assert(decreases_to!(
                        struct_value.fields@[i as int] => struct_value.fields@[i as int].1));
                    assert(decreases_to!(
                        struct_value.fields@[i as int].1
                            => struct_value.fields@[i as int].1->Struct_0));
                    assert(decreases_to!(*struct_value => *gs));
                }
                generate_struct_declarations(output, gs, options);
            },
            GenericValue::Array(vs) => {
                if vs.len() > 0 {
                    match &vs[0] {
                        GenericValue::Struct(gs) => {
                            proof {
                                let ghost fv = struct_value.fields@[i as int].1;
                                assert(decreases_to!(*struct_value => struct_value.fields));
                                assert(decreases_to!(
                                    struct_value.fields => struct_value.fields@));
                                assert(decreases_to!(
                                    struct_value.fields@ => struct_value.fields@[i as int]));
                                assert(decreases_to!(
                                    struct_value.fields@[i as int]
                                        => struct_value.fields@[i as int].1));
                                assert(decreases_to!(fv => fv->Array_0));
                                assert(decreases_to!(fv->Array_0 => fv->Array_0@));
                                assert(decreases_to!(fv->Array_0@ => fv->Array_0@[0]));
                                assert(decreases_to!(fv->Array_0@[0] => fv->Array_0@[0]->Struct_0));
                                assert(decreases_to!(*struct_value => *gs));
                            }
                            generate_struct_declarations(output, gs, options);
                        },
                        _ => {},
                    }
                }
            },
            _ => {},
        }
        proof {
            let ghost pre = struct_value.fields@.take(i as int);
            let ghost cur = struct_value.fields@.take(i as int + 1);
            assert(cur.drop_last() =~= pre);
            assert(cur.last() == struct_value.fields@[i as int]);
            assert(spec_nested_decls(cur, *options) == spec_nested_decls(pre, *options)
                + spec_nested_one(struct_value.fields@[i as int].1, *options));
            assert(output@ =~= before + spec_nested_one(struct_value.fields@[i as int].1, *options));
            assert(output@ =~= base + spec_nested_decls(cur, *options));
        }
        i = i + 1;
    }
    proof {
        assert(struct_value.fields@.take(n as int) =~= struct_value.fields@);
        assert(output@ =~= old(output)@ + spec_declarations(*struct_value, *options));
    }
}

/// The declaration text for a struct tree under the given options: the
/// root struct's block followed by the blocks of every struct reachable
/// through its fields, pre-order, with no deduplication.
pub fn generate_structs(struct_value: &GenericStruct, options: &StructOptions) -> (r: String)
    ensures
        r@ == spec_declarations(*struct_value, *options),
{
    let mut buffer = String::new();
    generate_struct_declarations(&mut buffer, struct_value, options);
    proof {
        assert(buffer@ =~= spec_declarations(*struct_value, *options));
    }
    buffer
}

/// For any non-empty array within the threshold, the inferred type is a
/// fixed-length-array type of exactly the array's length, and the literal
/// is a fixed-array literal holding exactly the elements' literals in
/// original order.
pub proof fn lemma_array_within_threshold(v: GenericValue, ind: nat, max: nat)
    requires
        v matches GenericValue::Array(vs) && 0 < vs@.len() <= max,
    ensures
        spec_type_text(v, max) == "["@ + spec_type_text(v->Array_0@[0], max) + "; "@ + dec_nat(
            v->Array_0@.len(),
        ) + "]"@,
        spec_value_text(v, ind, max) == "["@ + join_texts(
            spec_elem_texts(v->Array_0@, (ind + 4) as nat, max),
            ", "@,
        ) + "]"@,
        spec_elem_texts(v->Array_0@, (ind + 4) as nat, max).len() == v->Array_0@.len(),
        forall|i: int|
            0 <= i < v->Array_0@.len() ==> #[trigger] spec_elem_texts(
                v->Array_0@,
                (ind + 4) as nat,
                max,
            )[i] == spec_value_text(v->Array_0@[i], (ind + 4) as nat, max),
{
    let vs = v->Array_0;
    lemma_elem_texts_len(vs@, (ind + 4) as nat, max);
    assert forall|i: int| 0 <= i < vs@.len() implies #[trigger] spec_elem_texts(
        vs@,
        (ind + 4) as nat,
        max,
    )[i] == spec_value_text(vs@[i], (ind + 4) as nat, max) by {
        lemma_elem_texts_index(vs@, (ind + 4) as nat, max, i);
    }
}

/// For any array that is empty or beyond the threshold, the inferred type
/// and the emitted literal both take the slice forms — with the same
/// elements in the same order — so the type-side and value-side decisions
/// never disagree for the same value and threshold.
pub proof fn lemma_array_beyond_threshold(v: GenericValue, ind: nat, max: nat)
    requires
        v matches GenericValue::Array(vs) && (vs@.len() == 0 || vs@.len() > max),
    ensures
        spec_type_text(v, max) == "Cow<'static, ["@ + (if v->Array_0@.len() > 0 {
            spec_type_text(v->Array_0@[0], max)
        } else {
            "()"@
        }) + "]>"@,
        spec_value_text(v, ind, max) == "Cow::Borrowed(&["@ + join_texts(
            spec_elem_texts(v->Array_0@, (ind + 4) as nat, max),
            ", "@,
        ) + "])"@,
        spec_elem_texts(v->Array_0@, (ind + 4) as nat, max).len() == v->Array_0@.len(),
        forall|i: int|
            0 <= i < v->Array_0@.len() ==> #[trigger] spec_elem_texts(
                v->Array_0@,
                (ind + 4) as nat,
                max,
            )[i] == spec_value_text(v->Array_0@[i], (ind + 4) as nat, max),
{
    let vs = v->Array_0;
    lemma_elem_texts_len(vs@, (ind + 4) as nat, max);
    assert forall|i: int| 0 <= i < vs@.len() implies #[trigger] spec_elem_texts(
        vs@,
        (ind + 4) as nat,
        max,
    )[i] == spec_value_text(vs@[i], (ind + 4) as nat, max) by {
        lemma_elem_texts_index(vs@, (ind + 4) as nat, max, i);
    }
}

/// A float literal always carries a decimal point: an integral rendering
/// has ".0" appended, and any other rendering already contains '.'.
pub proof fn lemma_float_text_has_point(t: Seq<char>)
    ensures
        spec_float_text(t).contains('.'),
{
    if !t.contains('.') {
        let r = t + seq!['.', '0'];
        assert(r[t.len() as int] == '.');
    }
}

/// When the configured trait list is empty and the serde support resolves
/// to deriving nothing, no derive-annotation line is emitted at all.
pub proof fn lemma_no_derive_line(o: StructOptions)
    requires
        o.derived_traits@.len() == 0,
        spec_should_derive(o.serde_support) is None,
    ensures
        spec_derive_line(o) == Seq::<char>::empty(),
{
    lemma_trait_name_texts(o.derived_traits@);
}

/// The selective serde setting with both traits disabled resolves exactly
/// as the off setting does.
pub proof fn lemma_selective_off_resolves_as_off()
    ensures
        spec_should_derive(SerdeSupport::Mixed { serialize: false, deserialize: false })
            == spec_should_derive(SerdeSupport::No),
{
}

/// Two options that agree on the trait list, the macro-source selector and
/// the threshold, and whose serde settings resolve alike, generate
/// identical declaration text for any tree: only the resolution of the
/// serde setting matters, never the setting itself.
pub proof fn lemma_serde_resolution_determines_output(
    gs: GenericStruct,
    o1: StructOptions,
    o2: StructOptions,
)
    requires
        spec_should_derive(o1.serde_support) == spec_should_derive(o2.serde_support),
        o1.derived_traits@ == o2.derived_traits@,
        o1.use_serde_derive_crate == o2.use_serde_derive_crate,
        o1.max_array_size == o2.max_array_size,
    ensures
        spec_declarations(gs, o1) == spec_declarations(gs, o2),
    decreases gs,
{
    assert(spec_derived_trait_texts(o1) == spec_derived_trait_texts(o2));
    assert(spec_struct_block(gs, o1) == spec_struct_block(gs, o2));
    lemma_nested_serde_resolution(gs.fields@, o1, o2);
}

proof fn lemma_nested_serde_resolution(
    fields: Seq<(String, GenericValue)>,
    o1: StructOptions,
    o2: StructOptions,
)
    requires
        spec_should_derive(o1.serde_support) == spec_should_derive(o2.serde_support),
        o1.derived_traits@ == o2.derived_traits@,
        o1.use_serde_derive_crate == o2.use_serde_derive_crate,
        o1.max_array_size == o2.max_array_size,
    ensures
        spec_nested_decls(fields, o1) == spec_nested_decls(fields, o2),
    decreases fields,
{
    if fields.len() > 0 {
        lemma_nested_serde_resolution(fields.drop_last(), o1, o2);
        lemma_nested_one_serde_resolution(fields.last().1, o1, o2);
    }
}

proof fn lemma_nested_one_serde_resolution(v: GenericValue, o1: StructOptions, o2: StructOptions)
    requires
        spec_should_derive(o1.serde_support) == spec_should_derive(o2.serde_support),
        o1.derived_traits@ == o2.derived_traits@,
        o1.use_serde_derive_crate == o2.use_serde_derive_crate,
        o1.max_array_size == o2.max_array_size,
    ensures
        spec_nested_one(v, o1) == spec_nested_one(v, o2),
    decreases v,
{
    match v {
        GenericValue::Struct(gs) => {
            lemma_serde_resolution_determines_output(gs, o1, o2);
        },
        GenericValue::Array(vs) => {
            if vs@.len() > 0 {
                match vs@[0] {
                    GenericValue::Struct(gs) => {
                        lemma_serde_resolution_determines_output(gs, o1, o2);
                    },
                    _ => {},
                }
            }
        },
        _ => {},
    }
}

/// Declaration emission is pre-order: for a struct whose fields are, in
/// order, a struct field, an array field whose first element is a struct,
/// and a plain integer field, the output is the struct's own block, then
/// the first field struct's declarations, then the array struct's
/// declarations.
pub proof fn lemma_declaration_preorder(
    s: GenericStruct,
    x: GenericStruct,
    y: GenericStruct,
    o: StructOptions,
)
    requires
        s.fields@.len() == 3,
        s.fields@[0].1 == GenericValue::Struct(x),
        s.fields@[1].1 matches GenericValue::Array(vs) && vs@.len() >= 1 && vs@[0]
            == GenericValue::Struct(y),
        s.fields@[2].1 matches GenericValue::I32(_),
    ensures
        spec_declarations(s, o) == spec_struct_block(s, o) + spec_declarations(x, o)
            + spec_declarations(y, o),
{
    let fields = s.fields@;
    let f2 = fields.drop_last();
    let f1 = f2.drop_last();
    let f0 = f1.drop_last();
    assert(f0 =~= Seq::empty());
    assert(fields.last() == fields[2]);
    assert(f2.last() == fields[1]);
    assert(f1.last() == fields[0]);
    assert(spec_nested_one(fields[2].1, o) == Seq::<char>::empty());
    assert(spec_nested_one(fields[1].1, o) == spec_declarations(y, o));
    assert(spec_nested_one(fields[0].1, o) == spec_declarations(x, o));
    assert(spec_nested_decls(f0, o) == Seq::<char>::empty());
    assert(f1.drop_last() =~= f0);
    assert(spec_nested_decls(f1, o) =~= spec_declarations(x, o));
    assert(f2.drop_last() =~= f1);
    assert(spec_nested_decls(f2, o) =~= spec_declarations(x, o) + spec_declarations(y, o));
    assert(fields.drop_last() =~= f2);
    assert(spec_nested_decls(fields, o) =~= spec_declarations(x, o) + spec_declarations(y, o));
    assert(spec_declarations(s, o) =~= spec_struct_block(s, o) + spec_declarations(x, o)
        + spec_declarations(y, o));
}

/// Generation is deterministic: any two declaration texts obtained from
/// the same tree and the same options are identical, character for
/// character, as `generate_structs` pins its result to
/// `spec_declarations` of its inputs alone.
pub proof fn lemma_generation_deterministic(
    gs: GenericStruct,
    o: StructOptions,
    t1: Seq<char>,
    t2: Seq<char>,
)
    requires
        t1 == spec_declarations(gs, o),
        t2 == spec_declarations(gs, o),
    ensures
        t1 == t2,
{
}

/// Literal emission is deterministic: any two literal texts obtained from
/// the same value, indentation and threshold are identical, character for
/// character, as `value_string` pins its result to `spec_value_text` of
/// its inputs alone.
pub proof fn lemma_literal_deterministic(
    v: GenericValue,
    ind: nat,
    max: nat,
    t1: Seq<char>,
    t2: Seq<char>,
)
    requires
        t1 == spec_value_text(v, ind, max),
        t2 == spec_value_text(v, ind, max),
    ensures
        t1 == t2,
{
}

} // verus!
