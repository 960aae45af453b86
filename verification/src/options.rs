//! The options consumed by the generation core: the derive-trait list, the
//! serde tri-state, the derive-macro source selector and the array-size
//! threshold, together with the surrounding configuration bags.

use crate::validation::{spec_valid_identifier, valid_identifier};
use vstd::prelude::*;

verus! {

/// An error in the configured options.
#[derive(Debug, Clone, PartialEq, Eq)]
pub enum OptionsError {
    InvalidStructName(String),
}

/// The format of the source data a value tree was decoded from.
#[derive(Debug, Clone, Copy, PartialEq, Eq)]
pub enum Format {
    Json,
    Ron,
    Toml,
    Yaml,
}

/// Options for serde support.
#[derive(Debug, Copy, Clone, PartialEq, Eq, Structural)]
pub enum SerdeSupport {
    /// Do not derive any serde traits for the struct.
    No,
    /// Derive `Serialize` and `Deserialize` for the struct.
    Yes,
    /// Derive any combination of `Serialize` and `Deserialize`
    /// for the struct.
    Mixed { serialize: bool, deserialize: bool },
}

/// Which serde traits the support setting asks for: `None` when nothing is
/// to be derived, otherwise the (serialize, deserialize) pair with at least
/// one of the two set. Asking for a mixed setting with both disabled
/// resolves to `None`, exactly as the off setting does.
pub open spec fn spec_should_derive(s: SerdeSupport) -> Option<(bool, bool)> {
    match s {
        SerdeSupport::No => None,
        SerdeSupport::Yes => Some((true, true)),
        SerdeSupport::Mixed { serialize, deserialize } => if serialize || deserialize {
            Some((serialize, deserialize))
        } else {
            None
        },
    }
}

impl SerdeSupport {
    /// Which serde traits to derive, with the mixed-both-false case
    /// normalized to none at all.
    pub fn should_derive_ser_de(self) -> (r: Option<(bool, bool)>)
        ensures
            r == spec_should_derive(self),
    {
        match self {
            Self::No => None,
            Self::Yes => Some((true, true)),
            Self::Mixed { serialize, deserialize } => if serialize || deserialize {
                Some((serialize, deserialize))
            } else {
                None
            },
        }
    }
}

impl Default for SerdeSupport {
    fn default() -> (r: Self)
        ensures
            r is No,
    {
        Self::No
    }
}

/// When to perform dynamic loading from the config file itself.
#[derive(Debug, Clone, Copy, PartialEq, Eq)]
pub enum DynamicLoading {
    /// Always load the config from file.
    Always,
    /// Load from file in debug mode, but use the statically-included
    /// const in release mode.
    DebugOnly,
    /// Never load dynamically. Always use the statically-included
    /// const.
    Never,
}

impl Default for DynamicLoading {
    fn default() -> (r: Self)
        ensures
            r is DebugOnly,
    {
        Self::DebugOnly
    }
}

/// Represents a floating-point type.
#[derive(Debug, Clone, Copy, PartialEq, Eq)]
pub enum FloatSize {
    F32,
    F64,
}

/// Represents an integer type.
#[derive(Debug, Clone, Copy, PartialEq, Eq)]
pub enum IntSize {
    I8,
    I16,
    I32,
    I64,
    ISize,
}

/// The environment a synchronization file is resolved for.
#[derive(Debug, Clone, PartialEq, Eq)]
pub enum SynchronizationScope {
    Test,
    Prod,
}

impl Default for SynchronizationScope {
    fn default() -> (r: Self)
        ensures
            r is Prod,
    {
        Self::Prod
    }
}

/// What the trimmed application name resolves to: the fallback name when
/// nothing is left after trimming, otherwise the trimmed name itself.
pub open spec fn resolved_app_name(app_name: Seq<char>) -> Seq<char> {
    if trim_of(app_name).len() == 0 {
        "non_watchable_app"@
    } else {
        trim_of(app_name)
    }
}

/// The synchronization file path for an application name, a scope and the
/// manifest directory: empty when no path applies.
pub open spec fn spec_sync_file_path(
    app_name: Seq<char>,
    scope: Option<SynchronizationScope>,
    manifest_dir: Seq<char>,
) -> Seq<char> {
    let name = resolved_app_name(app_name);
    match scope {
        Some(SynchronizationScope::Prod) => if name == "non_watchable_app"@ {
            Seq::empty()
        } else {
            "C:\\Program Files\\Microsoft\\Datacenter\\Flighting\\"@ + "Substrate_"@ + name
                + "_V2.settingsconfig.json"@
        },
        Some(SynchronizationScope::Test) => manifest_dir
            + "/src/config/config_parser/resources/sync/"@ + name + ".json"@,
        None => Seq::empty(),
    }
}

/// Config parser options.
#[derive(Debug, Clone, PartialEq, Eq)]
pub struct ConfigParserOptions {
    /// The app name used to resolve the path to the synchronization file.
    /// If not provided, synchronization will be skipped.
    pub app_name: String,
    /// Supports synchronization for both test and prod scopes.
    pub synchronization_scope: Option<SynchronizationScope>,
}

impl ConfigParserOptions {
    /// The path of the synchronization file for these options, given the
    /// manifest directory the test scope resolves against; an error holding
    /// the resolved application name when no path applies.
    pub fn synchronization_file_path(&self, manifest_dir: &str) -> (r: Result<
        String,
        OptionsError,
    >)
        ensures
            r matches Ok(path) ==> path@ == spec_sync_file_path(
                self.app_name@,
                self.synchronization_scope,
                manifest_dir@,
            ) && path@.len() != 0,
            r matches Err(e) ==> ({
                &&& spec_sync_file_path(
                    self.app_name@,
                    self.synchronization_scope,
                    manifest_dir@,
                ).len() == 0
                &&& e matches OptionsError::InvalidStructName(n)
                &&& n@ == resolved_app_name(self.app_name@)
            }),
            r is Ok <==> spec_sync_file_path(
                self.app_name@,
                self.synchronization_scope,
                manifest_dir@,
            ).len() != 0,
    {
        let trimmed = trim_string(self.app_name.as_str());
        let fallback: String = "non_watchable_app".to_owned();
        let name: String = if trimmed.as_str().is_empty() {
            fallback.clone()
        } else {
            trimmed
        };
        let mut file_path = String::new();
        match &self.synchronization_scope {
            Some(SynchronizationScope::Prod) => {
                if !(name == fallback) {
                    file_path.append("C:\\Program Files\\Microsoft\\Datacenter\\Flighting\\");
                    file_path.append("Substrate_");
                    file_path.append(name.as_str());
                    file_path.append("_V2.settingsconfig.json");
                }
            },
            Some(SynchronizationScope::Test) => {
                file_path.append(manifest_dir);
                file_path.append("/src/config/config_parser/resources/sync/");
                file_path.append(name.as_str());
                file_path.append(".json");
            },
            None => {},
        }
        proof {
            assert(file_path@ =~= spec_sync_file_path(
                self.app_name@,
                self.synchronization_scope,
                manifest_dir@,
            ));
        }
        if file_path.as_str().is_empty() {
            Err(OptionsError::InvalidStructName(name))
        } else {
            Ok(file_path)
        }
    }
}

/// The fields of struct-generation options that the plain defaults fix,
/// leaving out the serde support and load-function flags that the serde
/// preset overrides.
pub open spec fn is_base_struct_options(o: StructOptions) -> bool {
    &&& o.format is None
    &&& o.struct_name@ == "Config"@
    &&& o.const_name is None
    &&& o.generate_const == true
    &&& o.derived_traits@.len() == 2
    &&& o.derived_traits@[0]@ == "Debug"@
    &&& o.derived_traits@[1]@ == "Clone"@
    &&& o.use_serde_derive_crate == false
    &&& o.dynamic_loading is DebugOnly
    &&& o.create_dirs == true
    &&& o.write_only_if_changed == true
    &&& o.default_float_size is F64
    &&& o.default_int_size is I64
    &&& o.max_array_size == 0
}

/// Options for configuring the generation of a struct.
#[derive(Debug, Clone, PartialEq, Eq)]
pub struct StructOptions {
    /// The format of the source data.
    ///
    /// Defaults to `None` which will cause it to be inferred from the
    /// file type.
    pub format: Option<Format>,
    /// The name of the resulting struct.
    ///
    /// Defaults to `"Config"`.
    pub struct_name: String,
    /// The name of the resulting const, if generated.
    ///
    /// Defaults to the value of `struct_name` in uppercase.
    pub const_name: Option<String>,
    /// Whether or not to generate a `const` instance of the struct.
    ///
    /// Defaults to `true`.
    pub generate_const: bool,
    /// A list of traits for the struct to derive.
    ///
    /// Defaults to `["Debug", "Clone"]`.
    ///
    /// (Note that the `serde_support` option below may add to this list.)
    pub derived_traits: Vec<String>,
    /// Shorthand for generating the Serialize and Deserialize traits.
    ///
    /// Defaults to `No`.
    pub serde_support: SerdeSupport,
    /// Whether to derive the serde traits through the `serde_derive`
    /// crate's macros instead of the `serde` crate's derive feature.
    pub use_serde_derive_crate: bool,
    /// Whether or not to generate helper functions to load the struct at
    /// runtime.
    ///
    /// Defaults to `false`.
    pub generate_load_fns: bool,
    /// Whether the load functions, if generated, are dynamic, and when.
    ///
    /// Defaults to `DebugOnly`.
    pub dynamic_loading: DynamicLoading,
    /// Whether or not to create the parent directories of the output file,
    /// if they don't exist.
    ///
    /// Defaults to `true`.
    pub create_dirs: bool,
    /// Whether to check if the destination file would be changed before
    /// writing output.
    ///
    /// Defaults to `true`.
    pub write_only_if_changed: bool,
    /// The type of floating point values in the config, where the format
    /// does not make it explicit.
    ///
    /// Defaults to `F64`.
    pub default_float_size: FloatSize,
    /// The type of integer values in the config, where the format does not
    /// make it explicit.
    ///
    /// Defaults to `I64`.
    pub default_int_size: IntSize,
    /// The maximum array size, over which array values in the config will
    /// be represented as slices instead.
    ///
    /// If set to `0`, slices will always be used.
    ///
    /// Defaults to `0`.
    pub max_array_size: usize,
}

impl StructOptions {
    /// Accepts the options exactly when the configured struct name is a
    /// valid identifier; the error returns that name.
    pub fn validate(&self) -> (r: Result<(), OptionsError>)
        ensures
            r is Ok <==> spec_valid_identifier(self.struct_name@),
            r matches Err(e) ==> e matches OptionsError::InvalidStructName(n) && n@
                == self.struct_name@,
    {
        if !valid_identifier(self.struct_name.as_str()) {
            return Err(OptionsError::InvalidStructName(self.struct_name.clone()));
        }
        Ok(())
    }

    /// The configured const name, or the struct name uppercased when none
    /// was configured.
    pub fn real_const_name(&self) -> (r: String)
        ensures
            r@ == match self.const_name {
                Some(n) => n@,
                None => upper_of(self.struct_name@),
            },
    {
        match &self.const_name {
            Some(n) => n.clone(),
            None => to_uppercase_string(self.struct_name.as_str()),
        }
    }

    /// The default options plus serde support: the `Serialize` and
    /// `Deserialize` traits, plus helper functions to load the config.
    pub fn serde_default() -> (r: Self)
        ensures
            is_base_struct_options(r),
            r.serde_support is Yes,
            r.generate_load_fns == true,
    {
        let mut options = Self::default();
        options.serde_support = SerdeSupport::Yes;
        options.generate_load_fns = true;
        options
    }
}

impl Default for StructOptions {
    fn default() -> (r: Self)
        ensures
            is_base_struct_options(r),
            r.serde_support is No,
            r.generate_load_fns == false,
    {
        let mut derived_traits: Vec<String> = Vec::new();
        derived_traits.push("Debug".to_owned());
        derived_traits.push("Clone".to_owned());
        StructOptions {
            format: None,
            struct_name: "Config".to_owned(),
            const_name: None,
            generate_const: true,
            derived_traits,
            serde_support: SerdeSupport::No,
            use_serde_derive_crate: false,
            generate_load_fns: false,
            dynamic_loading: DynamicLoading::DebugOnly,
            create_dirs: true,
            write_only_if_changed: true,
            default_float_size: FloatSize::F64,
            default_int_size: IntSize::I64,
            max_array_size: 0,
        }
    }
}

/// The fields of enum-generation options that the plain defaults fix,
/// leaving out the serde support that the serde preset overrides.
pub open spec fn is_base_enum_options(o: EnumOptions) -> bool {
    &&& o.format is None
    &&& o.enum_name@ == "Key"@
    &&& o.all_variants_const matches Some(c) && c@ == "ALL"@
    &&& o.derived_traits@.len() == 8
    &&& o.derived_traits@[0]@ == "Debug"@
    &&& o.derived_traits@[1]@ == "Clone"@
    &&& o.derived_traits@[2]@ == "Copy"@
    &&& o.derived_traits@[3]@ == "PartialEq"@
    &&& o.derived_traits@[4]@ == "Eq"@
    &&& o.derived_traits@[5]@ == "PartialOrd"@
    &&& o.derived_traits@[6]@ == "Ord"@
    &&& o.derived_traits@[7]@ == "Hash"@
    &&& o.first_variant_is_default == true
    &&& o.impl_display == true
    &&& o.impl_from_str == true
    &&& o.use_serde_derive_crate == false
    &&& o.create_dirs == true
    &&& o.write_only_if_changed == true
}

/// Options for configuring the generation of an enum.
#[derive(Debug, Clone, PartialEq, Eq)]
pub struct EnumOptions {
    /// The format of the source data.
    ///
    /// Defaults to `None` which will cause it to be inferred from the
    /// file type.
    pub format: Option<Format>,
    /// The name of the resulting enum.
    ///
    /// Defaults to `"Key"`.
    pub enum_name: String,
    /// The name of the const slice containing all variants, if one is to
    /// be generated.
    ///
    /// Defaults to `Some("ALL")`.
    pub all_variants_const: Option<String>,
    /// A list of traits for the enum to derive.
    ///
    /// Defaults to `["Debug", "Clone", "Copy", "PartialEq", "Eq",
    /// "PartialOrd", "Ord", "Hash"]`.
    ///
    /// (Note that the `serde_support` option below may add to this list.)
    pub derived_traits: Vec<String>,
    /// Whether to implement the `Default` trait for this enum. If `true`
    /// then the default value will be the first variant specified.
    ///
    /// Defaults to `true`.
    pub first_variant_is_default: bool,
    /// Whether to implement the `Display` trait for this enum.
    ///
    /// Defaults to `true`.
    pub impl_display: bool,
    /// Whether to implement the `FromStr` trait for this enum.
    ///
    /// Defaults to `true`.
    pub impl_from_str: bool,
    /// Shorthand for generating the Serialize and Deserialize traits.
    ///
    /// Defaults to `No`.
    pub serde_support: SerdeSupport,
    /// Whether to derive the serde traits through the `serde_derive`
    /// crate's macros instead of the `serde` crate's derive feature.
    pub use_serde_derive_crate: bool,
    /// Whether or not to create the parent directories of the output file,
    /// if they don't exist.
    ///
    /// Defaults to `true`.
    pub create_dirs: bool,
    /// Whether to check if the destination file would be changed before
    /// writing output.
    ///
    /// Defaults to `true`.
    pub write_only_if_changed: bool,
}

impl EnumOptions {
    /// Accepts any enum options.
    pub fn validate(&self) -> (r: Result<(), OptionsError>)
        ensures
            r is Ok,
    {
        Ok(())
    }

    /// The default options plus serde support: the `Serialize` and
    /// `Deserialize` traits.
    pub fn serde_default() -> (r: Self)
        ensures
            is_base_enum_options(r),
            r.serde_support is Yes,
    {
        let mut options = Self::default();
        options.serde_support = SerdeSupport::Yes;
        options
    }
}

impl Default for EnumOptions {
    fn default() -> (r: Self)
        ensures
            is_base_enum_options(r),
            r.serde_support is No,
    {
        let mut derived_traits: Vec<String> = Vec::new();
        derived_traits.push("Debug".to_owned());
        derived_traits.push("Clone".to_owned());
        derived_traits.push("Copy".to_owned());
        derived_traits.push("PartialEq".to_owned());
        derived_traits.push("Eq".to_owned());
        derived_traits.push("PartialOrd".to_owned());
        derived_traits.push("Ord".to_owned());
        derived_traits.push("Hash".to_owned());
        EnumOptions {
            format: None,
            enum_name: "Key".to_owned(),
            all_variants_const: Some("ALL".to_owned()),
            derived_traits,
            first_variant_is_default: true,
            impl_display: true,
            impl_from_str: true,
            serde_support: SerdeSupport::No,
            use_serde_derive_crate: false,
            create_dirs: true,
            write_only_if_changed: true,
        }
    }
}

/// What trimming leaves of a piece of text.
pub uninterp spec fn trim_of(s: Seq<char>) -> Seq<char>;

/// Relies on str::trim from std, which returns the string with leading and
/// trailing whitespace removed: the result depends on the characters alone.
#[verifier::external_body]
fn trim_string(s: &str) -> (r: String)
    ensures
        r@ == trim_of(s@),
{
    s.trim().to_owned()
}

/// What uppercasing a piece of text yields.
pub uninterp spec fn upper_of(s: Seq<char>) -> Seq<char>;

/// Relies on str::to_uppercase from std, which maps each character to its
/// Unicode uppercase equivalent: the result depends on the characters alone.
#[verifier::external_body]
fn to_uppercase_string(s: &str) -> (r: String)
    ensures
        r@ == upper_of(s@),
{
    s.to_uppercase()
}

} // verus!
