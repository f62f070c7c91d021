//! Points in time and spans of time, which Go's `time` package represents.

use vstd::prelude::*;

verus! {

/// The handler of a timestamp.
#[derive(Debug)]
pub struct TimestampCodeType;

impl TimestampCodeType {
    pub open spec fn spec_type_label(&self) -> Seq<char> {
        "time.Time"@
    }

    pub fn type_label(&self) -> (r: String)
        ensures
            r@ == self.spec_type_label(),
    {
        "time.Time".to_owned()
    }

    pub open spec fn spec_canonical_name(&self) -> Seq<char> {
        "Timestamp"@
    }

    pub fn canonical_name(&self) -> (r: String)
        ensures
            r@ == self.spec_canonical_name(),
    {
        "Timestamp".to_owned()
    }
}

/// The handler of a duration.
#[derive(Debug)]
pub struct DurationCodeType;

impl DurationCodeType {
    pub open spec fn spec_type_label(&self) -> Seq<char> {
        "time.Duration"@
    }

    pub fn type_label(&self) -> (r: String)
        ensures
            r@ == self.spec_type_label(),
    {
        "time.Duration".to_owned()
    }

    pub open spec fn spec_canonical_name(&self) -> Seq<char> {
        "Duration"@
    }

    pub fn canonical_name(&self) -> (r: String)
        ensures
            r@ == self.spec_canonical_name(),
    {
        "Duration".to_owned()
    }
}

} // verus!
