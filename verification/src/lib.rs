//! Turns a decoded configuration value tree into source text: one set of
//! struct declarations and one literal expression instantiating the tree,
//! kept mutually type-consistent by a shared array-size threshold.

pub mod generation;
pub mod options;
pub mod parsing;
pub mod text;
pub mod validation;
pub mod value;

pub use generation::{
    float_string, generate_structs, struct_value_string, type_string, type_string_with_options,
    value_string,
};
pub use options::{
    ConfigParserOptions, DynamicLoading, EnumOptions, FloatSize, Format, IntSize, OptionsError,
    SerdeSupport, StructOptions, SynchronizationScope,
};
pub use parsing::{parsed_to_generic_struct, preferred_int, ParsedFields};
pub use value::GenericStruct;
pub use value::GenericValue;
