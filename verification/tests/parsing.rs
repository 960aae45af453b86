use config_struct::{
    parsed_to_generic_struct, preferred_int, GenericValue, IntSize, StructOptions,
};

#[test]
fn preferred_int_wraps_at_requested_width() {
    assert_eq!(preferred_int(7, IntSize::I8), GenericValue::I8(7));
    assert_eq!(preferred_int(300, IntSize::I8), GenericValue::I8(44));
    assert_eq!(preferred_int(-2, IntSize::I16), GenericValue::I16(-2));
    assert_eq!(preferred_int(70000, IntSize::I32), GenericValue::I32(70000));
    assert_eq!(preferred_int(-9, IntSize::I64), GenericValue::I64(-9));
    assert_eq!(preferred_int(11, IntSize::ISize), GenericValue::ISize(11));
}

#[test]
fn parsed_fields_become_config_struct() {
    let options = StructOptions::default();
    let parsed: Vec<(String, i64)> = vec![
        ("alpha".to_string(), 1),
        ("beta".to_string(), 2),
    ];
    let result = parsed_to_generic_struct(parsed, &options, |_scope, _key, value, opts| {
        preferred_int(value, opts.default_int_size)
    });
    assert_eq!(result.struct_name, "Config");
    assert_eq!(
        result.fields,
        vec![
            ("alpha".to_string(), GenericValue::I64(1)),
            ("beta".to_string(), GenericValue::I64(2)),
        ],
    );
}

#[test]
fn parsed_fields_keep_insertion_order() {
    let options = StructOptions::default();
    let parsed: Vec<(String, bool)> = vec![
        ("zeta".to_string(), true),
        ("alpha".to_string(), false),
        ("mu".to_string(), true),
    ];
    let result = parsed_to_generic_struct(parsed, &options, |_scope, _key, value, _opts| {
        GenericValue::Bool(value)
    });
    let keys: Vec<&str> = result.fields.iter().map(|(k, _)| k.as_str()).collect();
    assert_eq!(keys, vec!["zeta", "alpha", "mu"]);
}
