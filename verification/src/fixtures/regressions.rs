//! Records that futures of more than one package resolve to.

use vstd::prelude::*;

verus! {

#[derive(Debug, PartialEq, Eq)]
pub struct Record {
    pub id: String,
    pub tag: String,
}

/// The record that the asynchronous functions of the fixture resolve to.
pub fn get_record() -> (r: Record)
    ensures
        r.id@ == "foo"@,
        r.tag@ == "bar"@,
{
    Record { id: "foo".to_owned(), tag: "bar".to_owned() }
}

} // verus!
