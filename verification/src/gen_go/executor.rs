//! The handle through which native code schedules work on the foreign side.

use vstd::prelude::*;

verus! {

/// The handler of the foreign executor.
#[derive(Debug)]
pub struct ForeignExecutorCodeType;

impl ForeignExecutorCodeType {
    pub open spec fn spec_type_label(&self) -> Seq<char> {
        "UniFfiForeignExecutor"@
    }

    pub fn type_label(&self) -> (r: String)
        ensures
            r@ == self.spec_type_label(),
    {
        // In Go, we define a struct to represent a ForeignExecutor
        "UniFfiForeignExecutor".to_owned()
    }

    pub open spec fn spec_canonical_name(&self) -> Seq<char> {
        "ForeignExecutor"@
    }

    pub fn canonical_name(&self) -> (r: String)
        ensures
            r@ == self.spec_canonical_name(),
    {
        "ForeignExecutor".to_owned()
    }

    pub open spec fn spec_initialization_fn(&self) -> Option<Seq<char>> {
        Some("uniffiInitForeignExecutor"@)
    }

    pub fn initialization_fn(&self) -> (r: Option<String>)
        ensures
            r is Some,
            Some(r->0@) == self.spec_initialization_fn(),
    {
        Some("uniffiInitForeignExecutor".to_owned())
    }
}

} // verus!
