//! Objects, and constructors that fail.

use std::sync::Arc;
use vstd::prelude::*;

verus! {

#[derive(Debug, PartialEq, Eq)]
pub enum ObjectError {
    InvalidOperation,
}

impl ObjectError {
    /// What the error says of itself.
    pub fn message(&self) -> (r: String)
        ensures
            r@ == "InvalidOperation"@,
    {
        "InvalidOperation".to_owned()
    }
}

#[derive(Debug, PartialEq, Eq)]
pub struct Object0 {}

impl Object0 {
    pub fn new() -> (r: Object0)
        ensures
            r == (Object0 {  }),
    {
        return Object0 {  };
    }

    pub fn new_custom() -> (r: Object0)
        ensures
            r == (Object0 {  }),
    {
        return Object0 {  };
    }
}

/// An object or an error, as the caller asks: what the asynchronous
/// constructor resolves to.
pub fn fallible_object0(do_fail: bool) -> (r: Result<Arc<Object0>, ObjectError>)
    ensures
        do_fail ==> r == Err::<Arc<Object0>, ObjectError>(ObjectError::InvalidOperation),
        !do_fail ==> r is Ok && *r->Ok_0 == (Object0 {  }),
{
    if do_fail {
        Err(ObjectError::InvalidOperation)
    } else {
        Ok(Arc::new(Object0::new()))
    }
}

#[derive(Debug, PartialEq, Eq)]
pub struct Object1 {
    pub message: String,
}

impl Object1 {
    pub fn new(message: String) -> (r: Object1)
        ensures
            r.message == message,
    {
        return Object1 { message };
    }

    pub fn new_custom(message: String) -> (r: Object1)
        ensures
            r.message == message,
    {
        return Object1 { message };
    }

    pub fn get_message(&self) -> (r: String)
        ensures
            r == self.message,
    {
        self.message.clone()
    }
}

#[derive(Debug, PartialEq, Eq)]
pub struct FallibleObject0 {}

impl FallibleObject0 {
    pub fn new() -> (r: Result<FallibleObject0, ObjectError>)
        ensures
            r == Err::<FallibleObject0, ObjectError>(ObjectError::InvalidOperation),
    {
        Err(ObjectError::InvalidOperation)
    }

    pub fn new_custom() -> (r: Result<FallibleObject0, ObjectError>)
        ensures
            r == Err::<FallibleObject0, ObjectError>(ObjectError::InvalidOperation),
    {
        Err(ObjectError::InvalidOperation)
    }
}

#[derive(Debug, PartialEq, Eq)]
pub struct FallibleObject1 {
    pub message: String,
}

impl FallibleObject1 {
    /// An object with a message; the empty message is refused.
    pub fn new(message: String) -> (r: Result<FallibleObject1, ObjectError>)
        ensures
            message@.len() == 0 ==> r == Err::<FallibleObject1, ObjectError>(
                ObjectError::InvalidOperation,
            ),
            message@.len() != 0 ==> r == Ok::<FallibleObject1, ObjectError>(
                FallibleObject1 { message },
            ),
    {
        if message.as_str().is_empty() {
            Err(ObjectError::InvalidOperation)
        } else {
            Ok(FallibleObject1 { message })
        }
    }

    /// An object with a message; the empty message is refused.
    pub fn new_custom(message: String) -> (r: Result<FallibleObject1, ObjectError>)
        ensures
            message@.len() == 0 ==> r == Err::<FallibleObject1, ObjectError>(
                ObjectError::InvalidOperation,
            ),
            message@.len() != 0 ==> r == Ok::<FallibleObject1, ObjectError>(
                FallibleObject1 { message },
            ),
    {
        if message.as_str().is_empty() {
            Err(ObjectError::InvalidOperation)
        } else {
            Ok(FallibleObject1 { message })
        }
    }

    pub fn get_message(&self) -> (r: String)
        ensures
            r == self.message,
    {
        self.message.clone()
    }
}

pub fn create_fallible_object1(message: String) -> (r: Result<Arc<FallibleObject1>, ObjectError>)
    ensures
        message@.len() == 0 ==> r == Err::<Arc<FallibleObject1>, ObjectError>(
            ObjectError::InvalidOperation,
        ),
        message@.len() != 0 ==> r is Ok && *r->Ok_0 == (FallibleObject1 { message }),
{
    match FallibleObject1::new(message) {
        Ok(o) => Ok(Arc::new(o)),
        Err(e) => Err(e),
    }
}

pub fn return_object1(object: Arc<Object1>) -> (r: Arc<Object1>)
    ensures
        r == object,
{
    object
}

} // verus!
