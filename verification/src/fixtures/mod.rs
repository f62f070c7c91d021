//! Small native libraries to generate bindings for: each shows the generated
//! code one corner of the interface language.

pub mod empty_string_and_bytes;
pub mod errors;
pub mod name_case;
pub mod objects;
pub mod regressions;
