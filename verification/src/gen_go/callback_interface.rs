//! Callback interfaces: interfaces that foreign code implements and native code calls.

use vstd::prelude::*;

use super::converter::{converter_instance, converter_name, register_expr, registration};
use super::text::concat;
use super::{spec_class_name, GoCodeOracle};

verus! {

/// The handler of a callback interface.
#[derive(Debug)]
pub struct CallbackInterfaceCodeType {
    pub id: String,
}

impl CallbackInterfaceCodeType {
    pub fn new(id: String) -> (r: Self)
        ensures
            r.id == id,
    {
        Self { id }
    }

    pub open spec fn spec_type_label(&self) -> Seq<char> {
        spec_class_name(self.id@)
    }

    pub fn type_label(&self) -> (r: String)
        ensures
            r@ == self.spec_type_label(),
    {
        GoCodeOracle.class_name(self.id.as_str())
    }

    pub open spec fn spec_canonical_name(&self) -> Seq<char> {
        "CallbackInterface"@ + self.id@
    }

    pub fn canonical_name(&self) -> (r: String)
        ensures
            r@ == self.spec_canonical_name(),
    {
        concat("CallbackInterface", self.id.as_str())
    }

    /// The converter of a callback interface has to be installed at startup, so
    /// that native code can reach the foreign implementations.
    pub open spec fn spec_initialization_fn(&self) -> Option<Seq<char>> {
        Some(register_expr(converter_instance(converter_name(self.spec_canonical_name()))))
    }

    pub fn initialization_fn(&self) -> (r: Option<String>)
        ensures
            r is Some,
            Some(r->0@) == self.spec_initialization_fn(),
    {
        Some(registration(self.canonical_name().as_str()))
    }
}

} // verus!
