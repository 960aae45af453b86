use config_struct::{
    float_string, generate_structs, struct_value_string, type_string, type_string_with_options,
    value_string, GenericStruct, GenericValue, SerdeSupport, StructOptions,
};

const U: GenericValue = GenericValue::Unit;

fn bare_options() -> StructOptions {
    let mut options = StructOptions::default();
    options.derived_traits = Vec::new();
    options
}

const ALLOW_LINE: &str = "#[allow(non_camel_case_types, non_snake_case, clippy::struct_excessive_bools, clippy::struct_field_names)]\n";

#[test]
fn empty_slice_type() {
    assert_eq!(
        type_string_with_options(&GenericValue::Array(vec![]), 0),
        "Cow<'static, [()]>",
    );

    assert_eq!(
        type_string_with_options(&GenericValue::Array(vec![]), 4),
        "Cow<'static, [()]>",
    );
}

#[test]
fn non_empty_slice_type() {
    assert_eq!(
        type_string_with_options(&GenericValue::Array(vec![U, U, U]), 0),
        "Cow<'static, [()]>",
    );
}

#[test]
fn non_empty_array_type() {
    assert_eq!(
        type_string_with_options(&GenericValue::Array(vec![U, U, U]), 4),
        "[(); 3]",
    );
}

#[test]
fn empty_slice_value() {
    assert_eq!(
        value_string(&GenericValue::Array(vec![]), 0, 0),
        "Cow::Borrowed(&[])",
    );

    assert_eq!(
        value_string(&GenericValue::Array(vec![]), 0, 4),
        "Cow::Borrowed(&[])",
    );
}

#[test]
fn non_empty_slice_value() {
    assert_eq!(
        value_string(&GenericValue::Array(vec![U, U, U]), 0, 0),
        "Cow::Borrowed(&[(), (), ()])",
    );
}

#[test]
fn non_empty_array_value() {
    assert_eq!(
        value_string(&GenericValue::Array(vec![U, U, U]), 0, 4),
        "[(), (), ()]",
    );
}

#[test]
fn scalar_types() {
    assert_eq!(type_string(&GenericValue::Bool(true)), "bool");
    assert_eq!(type_string(&GenericValue::Char('x')), "char");
    assert_eq!(type_string(&GenericValue::I8(0)), "i8");
    assert_eq!(type_string(&GenericValue::U64(0)), "u64");
    assert_eq!(type_string(&GenericValue::ISize(0)), "isize");
    assert_eq!(type_string(&GenericValue::Usize(0)), "usize");
    assert_eq!(type_string(&GenericValue::F32(String::from("0"))), "f32");
    assert_eq!(type_string(&GenericValue::F64(String::from("0"))), "f64");
    assert_eq!(
        type_string(&GenericValue::String(String::from("hi"))),
        "Cow<'static, str>",
    );
}

#[test]
fn option_types() {
    assert_eq!(
        type_string(&GenericValue::Option(Some(Box::new(GenericValue::I32(3))))),
        "Option<i32>",
    );
    assert_eq!(type_string(&GenericValue::Option(None)), "Option<()>");
}

#[test]
fn scalar_values() {
    assert_eq!(value_string(&GenericValue::Unit, 0, 0), "()");
    assert_eq!(value_string(&GenericValue::Bool(true), 0, 0), "true");
    assert_eq!(value_string(&GenericValue::Bool(false), 0, 0), "false");
    assert_eq!(value_string(&GenericValue::Char('x'), 0, 0), "'x'");
    assert_eq!(value_string(&GenericValue::I64(-5), 0, 0), "-5");
    assert_eq!(value_string(&GenericValue::I8(-128), 0, 0), "-128");
    assert_eq!(value_string(&GenericValue::U32(42), 0, 0), "42");
    assert_eq!(value_string(&GenericValue::Usize(0), 0, 0), "0");
    assert_eq!(
        value_string(&GenericValue::String(String::from("hi")), 0, 0),
        "Cow::Borrowed(\"hi\")",
    );
}

#[test]
fn option_values() {
    assert_eq!(
        value_string(
            &GenericValue::Option(Some(Box::new(GenericValue::Bool(true)))),
            0,
            0,
        ),
        "Some(true)",
    );
    assert_eq!(value_string(&GenericValue::Option(None), 0, 0), "None");
}

#[test]
fn integral_float_gains_decimal_point() {
    let rendered = 3.0f64.to_string();
    assert_eq!(rendered, "3");
    assert_eq!(value_string(&GenericValue::F64(rendered), 0, 0), "3.0");

    let fractional = 3.5f32.to_string();
    assert_eq!(value_string(&GenericValue::F32(fractional), 0, 0), "3.5");
}

#[test]
fn float_string_appends_point_only_when_missing() {
    assert_eq!(float_string("3"), "3.0");
    assert_eq!(float_string("3.25"), "3.25");
    assert_eq!(float_string("-7"), "-7.0");
}

#[test]
fn type_and_value_agree_on_threshold() {
    let array = GenericValue::Array(vec![GenericValue::I32(1), GenericValue::I32(2)]);
    assert_eq!(type_string_with_options(&array, 2), "[i32; 2]");
    assert_eq!(value_string(&array, 0, 2), "[1, 2]");
    assert_eq!(type_string_with_options(&array, 1), "Cow<'static, [i32]>");
    assert_eq!(value_string(&array, 0, 1), "Cow::Borrowed(&[1, 2])");
}

#[test]
fn struct_literal_layout() {
    let point = GenericStruct {
        struct_name: String::from("Point"),
        fields: vec![("x".to_string(), GenericValue::I32(1))],
    };
    let config = GenericStruct {
        struct_name: String::from("Config"),
        fields: vec![(
            "list".to_string(),
            GenericValue::Array(vec![GenericValue::Struct(point)]),
        )],
    };
    assert_eq!(
        struct_value_string(&config, 0, 4),
        "Config {\n    list: [Point {\n            x: 1,\n        }],\n}",
    );
}

#[test]
fn declaration_order_is_preorder() {
    let x = GenericStruct {
        struct_name: String::from("X"),
        fields: vec![],
    };
    let y = GenericStruct {
        struct_name: String::from("Y"),
        fields: vec![],
    };
    let s = GenericStruct {
        struct_name: String::from("S"),
        fields: vec![
            ("a".to_string(), GenericValue::Struct(x)),
            (
                "b".to_string(),
                GenericValue::Array(vec![GenericValue::Struct(y)]),
            ),
            ("c".to_string(), GenericValue::I32(7)),
        ],
    };
    let output = generate_structs(&s, &bare_options());
    let expected = format!(
        "{a}pub struct S {{\n    pub a: X,\n    pub b: Cow<'static, [Y]>,\n    pub c: i32,\n}}\n{a}pub struct X {{\n\n}}\n{a}pub struct Y {{\n\n}}\n",
        a = ALLOW_LINE,
    );
    assert_eq!(output, expected);
}

#[test]
fn derive_line_from_configured_traits() {
    let tree = GenericStruct {
        struct_name: String::from("Config"),
        fields: vec![("flag".to_string(), GenericValue::Bool(true))],
    };
    let options = StructOptions::default();
    let output = generate_structs(&tree, &options);
    let expected = format!(
        "#[derive(Debug, Clone)]\n{a}pub struct Config {{\n    pub flag: bool,\n}}\n",
        a = ALLOW_LINE,
    );
    assert_eq!(output, expected);
}

#[test]
fn no_derive_line_when_nothing_applies() {
    let tree = GenericStruct {
        struct_name: String::from("Config"),
        fields: vec![("flag".to_string(), GenericValue::Bool(true))],
    };
    let output = generate_structs(&tree, &bare_options());
    assert!(!output.contains("#[derive"));

    let mut mixed_off = bare_options();
    mixed_off.serde_support = SerdeSupport::Mixed {
        serialize: false,
        deserialize: false,
    };
    assert_eq!(generate_structs(&tree, &mixed_off), output);
}

#[test]
fn serde_traits_appended_after_configured_traits() {
    let tree = GenericStruct {
        struct_name: String::from("Config"),
        fields: vec![("flag".to_string(), GenericValue::Bool(true))],
    };
    let mut options = StructOptions::default();
    options.serde_support = SerdeSupport::Yes;
    let output = generate_structs(&tree, &options);
    assert!(output.starts_with("#[derive(Debug, Clone, serde::Serialize, serde::Deserialize)]\n"));

    options.use_serde_derive_crate = true;
    options.serde_support = SerdeSupport::Mixed {
        serialize: false,
        deserialize: true,
    };
    let output = generate_structs(&tree, &options);
    assert!(output.starts_with("#[derive(Debug, Clone, serde_derive::Deserialize)]\n"));
}

#[test]
fn snake_cases_field_names() {
    let tree = GenericStruct {
        struct_name: String::from("Config"),
        fields: vec![("FooBar".to_string(), GenericValue::Bool(true))],
    };
    let output = generate_structs(&tree, &bare_options());
    assert!(output.contains("    pub foo_bar: bool,"));
}

#[test]
fn struct_behind_optional_is_not_discovered() {
    let inner = GenericStruct {
        struct_name: String::from("Inner"),
        fields: vec![],
    };
    let tree = GenericStruct {
        struct_name: String::from("Config"),
        fields: vec![(
            "opt".to_string(),
            GenericValue::Option(Some(Box::new(GenericValue::Struct(inner)))),
        )],
    };
    let output = generate_structs(&tree, &bare_options());
    let expected = format!(
        "{a}pub struct Config {{\n    pub opt: Option<Inner>,\n}}\n",
        a = ALLOW_LINE,
    );
    assert_eq!(output, expected);
}

#[test]
fn nested_arrays_recurse_through_first_element() {
    let nested = GenericValue::Array(vec![GenericValue::Array(vec![U])]);
    assert_eq!(type_string_with_options(&nested, 1), "[[(); 1]; 1]");
    assert_eq!(value_string(&nested, 0, 1), "[[()]]");
    assert_eq!(type_string_with_options(&nested, 0), "Cow<'static, [Cow<'static, [()]>]>");
    assert_eq!(value_string(&nested, 0, 0), "Cow::Borrowed(&[Cow::Borrowed(&[()])])");
}

#[test]
fn generation_is_deterministic() {
    let tree = GenericStruct {
        struct_name: String::from("Config"),
        fields: vec![
            ("name".to_string(), GenericValue::String(String::from("x"))),
            (
                "sizes".to_string(),
                GenericValue::Array(vec![GenericValue::U8(1), GenericValue::U8(2)]),
            ),
        ],
    };
    let options = StructOptions::default();
    assert_eq!(
        generate_structs(&tree, &options),
        generate_structs(&tree, &options),
    );
    assert_eq!(value_string(&GenericValue::U8(9), 2, 3), value_string(&GenericValue::U8(9), 2, 3));
}
