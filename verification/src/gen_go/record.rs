//! Records: named groups of fields, passed by value.

use vstd::prelude::*;

use super::text::concat;
use super::{spec_class_name, GoCodeOracle};

verus! {

/// The handler of a record.
#[derive(Debug)]
pub struct RecordCodeType {
    pub name: String,
}

impl RecordCodeType {
    pub fn new(name: String) -> (r: Self)
        ensures
            r.name == name,
    {
        Self { name }
    }

    pub open spec fn spec_type_label(&self) -> Seq<char> {
        spec_class_name(self.name@)
    }

    pub fn type_label(&self) -> (r: String)
        ensures
            r@ == self.spec_type_label(),
    {
        GoCodeOracle.class_name(self.name.as_str())
    }

    /// The class name behind `Type`, which keeps a record's derived names apart
    /// from those of the builtin types.
    pub open spec fn spec_canonical_name(&self) -> Seq<char> {
        "Type"@ + spec_class_name(self.name@)
    }

    pub fn canonical_name(&self) -> (r: String)
        ensures
            r@ == self.spec_canonical_name(),
    {
        concat("Type", GoCodeOracle.class_name(self.name.as_str()).as_str())
    }
}

} // verus!
