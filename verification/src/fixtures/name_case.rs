//! Names in a case that Go would not write them in.

use vstd::prelude::*;

verus! {

#[derive(Debug, PartialEq, Eq)]
pub enum ENUMTest {
    VARIANTOne,
}

#[derive(Debug, PartialEq, Eq)]
pub enum AssociatedENUMTest {
    VARIANTTest { code: i16 },
}

#[derive(Debug, PartialEq, Eq)]
pub enum ERRORTest {
    VARIANTOne,
}

impl ERRORTest {
    /// What the error says of itself.
    pub fn message(&self) -> (r: String)
        ensures
            r@ == "Test"@,
    {
        "Test".to_owned()
    }
}

#[derive(Debug, PartialEq, Eq)]
pub enum AssociatedERRORTest {
    VARIANTTest { code: i16 },
}

impl AssociatedERRORTest {
    /// What the error says of itself.
    pub fn message(&self) -> (r: String)
        ensures
            r@ == "Test"@,
    {
        "Test".to_owned()
    }
}

#[derive(Debug, PartialEq, Eq)]
pub struct OBJECTTest {}

impl OBJECTTest {
    pub fn new() -> (r: Self)
        ensures
            r == (OBJECTTest {  }),
    {
        OBJECTTest {  }
    }

    pub fn new_alternate() -> (r: Self)
        ensures
            r == (OBJECTTest {  }),
    {
        OBJECTTest {  }
    }

    pub fn test(&self) {
    }
}

#[derive(Debug, PartialEq, Eq)]
pub struct RECORDTest {
    pub test: i32,
}

pub fn test() {
    let _ = ERRORTest::VARIANTOne;
}

pub trait CALLBACKTest {
    fn test(&self);
}

} // verus!
