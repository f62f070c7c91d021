//! Values that are present and empty.

use vstd::prelude::*;

verus! {

pub fn empty_string_test() -> (r: Option<String>)
    ensures
        r is Some,
        r->0@.len() == 0,
{
    Some(String::new())
}

pub fn empty_bytes_test() -> (r: Option<Vec<u8>>)
    ensures
        r is Some,
        r->0@.len() == 0,
{
    Some(Vec::new())
}

} // verus!
