//! Custom types: named types that travel as a builtin type.

use vstd::prelude::*;

use super::text::concat;
use super::{spec_class_name, GoCodeOracle};

verus! {

/// The handler of a custom type.
#[derive(Debug)]
pub struct CustomCodeType {
    pub name: String,
}

impl CustomCodeType {
    pub fn new(name: String) -> (r: Self)
        ensures
            r.name == name,
    {
        Self { name }
    }

    pub open spec fn spec_type_label(&self) -> Seq<char> {
        spec_class_name(self.name@)
    }

    pub fn type_label(&self) -> (r: String)
        ensures
            r@ == self.spec_type_label(),
    {
        GoCodeOracle.class_name(self.name.as_str())
    }

    pub open spec fn spec_canonical_name(&self) -> Seq<char> {
        "Type"@ + self.name@
    }

    pub fn canonical_name(&self) -> (r: String)
        ensures
            r@ == self.spec_canonical_name(),
    {
        concat("Type", self.name.as_str())
    }
}

} // verus!
