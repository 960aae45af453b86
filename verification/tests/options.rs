use config_struct::{
    ConfigParserOptions, DynamicLoading, EnumOptions, FloatSize, IntSize, OptionsError,
    SerdeSupport, StructOptions, SynchronizationScope,
};

#[test]
fn should_derive_resolution() {
    assert_eq!(SerdeSupport::No.should_derive_ser_de(), None);
    assert_eq!(SerdeSupport::Yes.should_derive_ser_de(), Some((true, true)));
    assert_eq!(
        SerdeSupport::Mixed {
            serialize: true,
            deserialize: false,
        }
        .should_derive_ser_de(),
        Some((true, false)),
    );
    assert_eq!(
        SerdeSupport::Mixed {
            serialize: false,
            deserialize: false,
        }
        .should_derive_ser_de(),
        None,
    );
}

#[test]
fn struct_options_defaults() {
    let options = StructOptions::default();
    assert_eq!(options.format, None);
    assert_eq!(options.struct_name, "Config");
    assert_eq!(options.const_name, None);
    assert!(options.generate_const);
    assert_eq!(options.derived_traits, vec!["Debug".to_string(), "Clone".to_string()]);
    assert_eq!(options.serde_support, SerdeSupport::No);
    assert!(!options.use_serde_derive_crate);
    assert!(!options.generate_load_fns);
    assert_eq!(options.dynamic_loading, DynamicLoading::DebugOnly);
    assert!(options.create_dirs);
    assert!(options.write_only_if_changed);
    assert_eq!(options.default_float_size, FloatSize::F64);
    assert_eq!(options.default_int_size, IntSize::I64);
    assert_eq!(options.max_array_size, 0);
}

#[test]
fn struct_options_serde_default() {
    let options = StructOptions::serde_default();
    assert_eq!(
        options,
        StructOptions {
            serde_support: SerdeSupport::Yes,
            generate_load_fns: true,
            ..StructOptions::default()
        },
    );
}

#[test]
fn enum_options_defaults() {
    let options = EnumOptions::default();
    assert_eq!(options.enum_name, "Key");
    assert_eq!(options.all_variants_const, Some("ALL".to_string()));
    assert_eq!(
        options.derived_traits,
        vec![
            "Debug".to_string(),
            "Clone".to_string(),
            "Copy".to_string(),
            "PartialEq".to_string(),
            "Eq".to_string(),
            "PartialOrd".to_string(),
            "Ord".to_string(),
            "Hash".to_string(),
        ],
    );
    assert!(options.first_variant_is_default);
    assert!(options.impl_display);
    assert!(options.impl_from_str);
    assert_eq!(options.serde_support, SerdeSupport::No);
    assert!(options.validate().is_ok());
}

#[test]
fn enum_options_serde_default() {
    let options = EnumOptions::serde_default();
    assert_eq!(
        options,
        EnumOptions {
            serde_support: SerdeSupport::Yes,
            ..EnumOptions::default()
        },
    );
}

#[test]
fn validate_accepts_identifiers_only() {
    let mut options = StructOptions::default();
    assert!(options.validate().is_ok());

    options.struct_name = "_Config2".to_string();
    assert!(options.validate().is_ok());

    options.struct_name = "9bad".to_string();
    assert_eq!(
        options.validate(),
        Err(OptionsError::InvalidStructName("9bad".to_string())),
    );

    options.struct_name = "".to_string();
    assert!(options.validate().is_err());

    options.struct_name = "has space".to_string();
    assert!(options.validate().is_err());
}

#[test]
fn real_const_name_uppercases_struct_name() {
    let mut options = StructOptions::default();
    assert_eq!(options.real_const_name(), "CONFIG");

    options.const_name = Some("SETTINGS".to_string());
    assert_eq!(options.real_const_name(), "SETTINGS");
}

#[test]
fn sync_path_prod_trims_app_name() {
    let options = ConfigParserOptions {
        app_name: "  app1  ".to_string(),
        synchronization_scope: Some(SynchronizationScope::Prod),
    };
    assert_eq!(
        options.synchronization_file_path("/tmp"),
        Ok(
            "C:\\Program Files\\Microsoft\\Datacenter\\Flighting\\Substrate_app1_V2.settingsconfig.json"
                .to_string()
        ),
    );
}

#[test]
fn sync_path_prod_empty_name_is_error() {
    let options = ConfigParserOptions {
        app_name: "   ".to_string(),
        synchronization_scope: Some(SynchronizationScope::Prod),
    };
    assert_eq!(
        options.synchronization_file_path("/tmp"),
        Err(OptionsError::InvalidStructName("non_watchable_app".to_string())),
    );
}

#[test]
fn sync_path_test_scope_uses_manifest_dir() {
    let options = ConfigParserOptions {
        app_name: "app1".to_string(),
        synchronization_scope: Some(SynchronizationScope::Test),
    };
    assert_eq!(
        options.synchronization_file_path("/proj"),
        Ok("/proj/src/config/config_parser/resources/sync/app1.json".to_string()),
    );
}

#[test]
fn sync_path_no_scope_is_error() {
    let options = ConfigParserOptions {
        app_name: "app1".to_string(),
        synchronization_scope: None,
    };
    assert_eq!(
        options.synchronization_file_path("/proj"),
        Err(OptionsError::InvalidStructName("app1".to_string())),
    );
}
