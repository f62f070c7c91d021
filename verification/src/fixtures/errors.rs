//! Functions that fail, with errors of every shape.

use vstd::prelude::*;

use crate::gen_go::numerals::{render_signed_decimal, signed_decimal};
use crate::gen_go::text::{concat, str_eq};

verus! {

/// The standard library's `std::time::SystemTime`. Nothing is known of its
/// values here: the functions below fail before they make one.
#[verifier::external_type_specification]
#[verifier::external_body]
pub struct ExSystemTime(std::time::SystemTime);

#[derive(Debug, PartialEq, Eq)]
pub enum BoobyTrapError {
    IceSlip,
    HotDoorKnob,
}

impl BoobyTrapError {
    pub open spec fn spec_message(&self) -> Seq<char> {
        match self {
            BoobyTrapError::IceSlip => "You slipped on deliberately poured ice"@,
            BoobyTrapError::HotDoorKnob => "A hot door knob has burnt your hand"@,
        }
    }

    /// What the error says of itself.
    pub fn message(&self) -> (r: String)
        ensures
            r@ == self.spec_message(),
    {
        match self {
            BoobyTrapError::IceSlip => "You slipped on deliberately poured ice".to_owned(),
            BoobyTrapError::HotDoorKnob => "A hot door knob has burnt your hand".to_owned(),
        }
    }
}

#[derive(Debug, PartialEq, Eq)]
pub enum ValidationError {
    InvalidUser { user_id: i32 },
    InvalidMessage { message: String },
    InvalidUserAndMessage { user_id: i32, message: String },
    UnknownError,
}

impl ValidationError {
    pub open spec fn spec_message(&self) -> Seq<char> {
        match self {
            ValidationError::InvalidUser { user_id } => "Invalid user_id "@ + signed_decimal(
                *user_id as int,
            ),
            ValidationError::InvalidMessage { message } => "Invalid message "@ + message@,
            ValidationError::InvalidUserAndMessage { user_id, message } => "Invalid user "@
                + signed_decimal(*user_id as int) + " and message "@ + message@,
            ValidationError::UnknownError => "Unknown error"@,
        }
    }

    /// What the error says of itself.
    pub fn message(&self) -> (r: String)
        ensures
            r@ == self.spec_message(),
    {
        match self {
            ValidationError::InvalidUser { user_id } => concat(
                "Invalid user_id ",
                render_signed_decimal(*user_id as i64).as_str(),
            ),
            ValidationError::InvalidMessage { message } => concat(
                "Invalid message ",
                message.as_str(),
            ),
            ValidationError::InvalidUserAndMessage { user_id, message } => {
                let mut s = concat("Invalid user ", render_signed_decimal(*user_id as i64).as_str());
                s.append(" and message ");
                s.append(message.as_str());
                s
            },
            ValidationError::UnknownError => "Unknown error".to_owned(),
        }
    }
}

#[derive(Debug, PartialEq, Eq)]
pub enum ErrorNamedError {
    Error { error: String },
}

impl ErrorNamedError {
    pub open spec fn spec_message(&self) -> Seq<char> {
        match self {
            ErrorNamedError::Error { error } => "Error "@ + error@,
        }
    }

    /// What the error says of itself.
    pub fn message(&self) -> (r: String)
        ensures
            r@ == self.spec_message(),
    {
        match self {
            ErrorNamedError::Error { error } => concat("Error ", error.as_str()),
        }
    }
}

#[derive(Debug, PartialEq, Eq)]
pub enum NestedError {
    Nested { source: ValidationError },
}

impl NestedError {
    pub open spec fn spec_message(&self) -> Seq<char> {
        match self {
            NestedError::Nested { source } => source.spec_message(),
        }
    }

    /// What the error says of itself: what the error inside it says.
    pub fn message(&self) -> (r: String)
        ensures
            r@ == self.spec_message(),
    {
        match self {
            NestedError::Nested { source } => source.message(),
        }
    }
}

pub fn try_nested(trip: bool) -> (r: Result<(), NestedError>)
    ensures
        trip ==> r == Err::<(), NestedError>(
            NestedError::Nested { source: ValidationError::UnknownError },
        ),
        !trip ==> r is Ok,
{
    if trip {
        Err(NestedError::Nested { source: ValidationError::UnknownError })
    } else {
        Ok(())
    }
}

pub fn try_void(trip: bool) -> (r: Result<(), BoobyTrapError>)
    ensures
        trip ==> r == Err::<(), BoobyTrapError>(BoobyTrapError::IceSlip),
        !trip ==> r is Ok,
{
    if trip {
        Err(BoobyTrapError::IceSlip)
    } else {
        Ok(())
    }
}

pub fn try_string(trip: bool) -> (r: Result<String, BoobyTrapError>)
    ensures
        trip ==> r == Err::<String, BoobyTrapError>(BoobyTrapError::IceSlip),
        !trip ==> r is Ok && r->Ok_0@ == "hello world"@,
{
    if trip {
        Err(BoobyTrapError::IceSlip)
    } else {
        Ok("hello world".to_owned())
    }
}

/// User 100 is invalid, and so is the message `byebye`.
pub fn validate_message(user_id: i32, message: String) -> (r: Result<(), ValidationError>)
    ensures
        user_id == 100 && message@ == "byebye"@ ==> r == Err::<(), ValidationError>(
            ValidationError::InvalidUserAndMessage { user_id, message },
        ),
        user_id == 100 && message@ != "byebye"@ ==> r == Err::<(), ValidationError>(
            ValidationError::InvalidUser { user_id },
        ),
        user_id != 100 && message@ == "byebye"@ ==> r == Err::<(), ValidationError>(
            ValidationError::InvalidMessage { message },
        ),
        user_id != 100 && message@ != "byebye"@ ==> r is Ok,
{
    let bye = str_eq(message.as_str(), "byebye");
    if user_id == 100 && bye {
        Err(ValidationError::InvalidUserAndMessage { user_id, message })
    } else if user_id == 100 {
        Err(ValidationError::InvalidUser { user_id })
    } else if bye {
        Err(ValidationError::InvalidMessage { message })
    } else {
        Ok(())
    }
}

/// The shapes of data that an error can carry.
#[derive(Debug, Copy, PartialEq, Eq)]
pub enum ComplexErrorShape {
    /// Two positions.
    Struct,
    /// A list of positions.
    List,
    /// Positions by number.
    Dictionary,
    /// Two optional numbers.
    Optional,
}

impl Clone for ComplexErrorShape {
    fn clone(&self) -> (r: Self)
        ensures
            r == *self,
    {
        *self
    }
}

/// The shape that goes by a name, if the name is that of a shape.
pub open spec fn shape_named(error: Seq<char>) -> Option<ComplexErrorShape> {
    if error == "struct"@ {
        Some(ComplexErrorShape::Struct)
    } else if error == "list"@ {
        Some(ComplexErrorShape::List)
    } else if error == "map"@ {
        Some(ComplexErrorShape::Dictionary)
    } else if error == "option"@ {
        Some(ComplexErrorShape::Optional)
    } else {
        None
    }
}

/// Which error is asked for by name: one of the four shapes, or none for any
/// other name. The caller fills the error with its positions.
pub fn get_complex_error(error: String) -> (r: Result<(), ComplexErrorShape>)
    ensures
        match shape_named(error@) {
            Some(shape) => r == Err::<(), ComplexErrorShape>(shape),
            None => r is Ok,
        },
{
    let name = error.as_str();
    if str_eq(name, "struct") {
        Err(ComplexErrorShape::Struct)
    } else if str_eq(name, "list") {
        Err(ComplexErrorShape::List)
    } else if str_eq(name, "map") {
        Err(ComplexErrorShape::Dictionary)
    } else if str_eq(name, "option") {
        Err(ComplexErrorShape::Optional)
    } else {
        Ok(())
    }
}

pub fn error_boolean() -> (r: Result<bool, BoobyTrapError>)
    ensures
        r == Err::<bool, BoobyTrapError>(BoobyTrapError::IceSlip),
{
    Err(BoobyTrapError::IceSlip)
}

pub fn error_duration() -> (r: Result<std::time::Duration, BoobyTrapError>)
    ensures
        r == Err::<std::time::Duration, BoobyTrapError>(BoobyTrapError::IceSlip),
{
    Err(BoobyTrapError::IceSlip)
}

pub fn error_i8() -> (r: Result<i8, BoobyTrapError>)
    ensures
        r == Err::<i8, BoobyTrapError>(BoobyTrapError::IceSlip),
{
    Err(BoobyTrapError::IceSlip)
}

pub fn error_u8() -> (r: Result<u8, BoobyTrapError>)
    ensures
        r == Err::<u8, BoobyTrapError>(BoobyTrapError::IceSlip),
{
    Err(BoobyTrapError::IceSlip)
}

pub fn error_i16() -> (r: Result<i16, BoobyTrapError>)
    ensures
        r == Err::<i16, BoobyTrapError>(BoobyTrapError::IceSlip),
{
    Err(BoobyTrapError::IceSlip)
}

pub fn error_u16() -> (r: Result<u16, BoobyTrapError>)
    ensures
        r == Err::<u16, BoobyTrapError>(BoobyTrapError::IceSlip),
{
    Err(BoobyTrapError::IceSlip)
}

pub fn error_i32() -> (r: Result<i32, BoobyTrapError>)
    ensures
        r == Err::<i32, BoobyTrapError>(BoobyTrapError::IceSlip),
{
    Err(BoobyTrapError::IceSlip)
}

pub fn error_u32() -> (r: Result<u32, BoobyTrapError>)
    ensures
        r == Err::<u32, BoobyTrapError>(BoobyTrapError::IceSlip),
{
    Err(BoobyTrapError::IceSlip)
}

pub fn error_i64() -> (r: Result<i64, BoobyTrapError>)
    ensures
        r == Err::<i64, BoobyTrapError>(BoobyTrapError::IceSlip),
{
    Err(BoobyTrapError::IceSlip)
}

pub fn error_u64() -> (r: Result<u64, BoobyTrapError>)
    ensures
        r == Err::<u64, BoobyTrapError>(BoobyTrapError::IceSlip),
{
    Err(BoobyTrapError::IceSlip)
}

pub fn error_optional_timestamp() -> (r: Result<Option<std::time::SystemTime>, BoobyTrapError>)
    ensures
        r == Err::<Option<std::time::SystemTime>, BoobyTrapError>(BoobyTrapError::IceSlip),
{
    Err(BoobyTrapError::IceSlip)
}

pub fn error_string() -> (r: Result<String, BoobyTrapError>)
    ensures
        r == Err::<String, BoobyTrapError>(BoobyTrapError::IceSlip),
{
    Err(BoobyTrapError::IceSlip)
}

pub fn error_timestamp() -> (r: Result<std::time::SystemTime, BoobyTrapError>)
    ensures
        r == Err::<std::time::SystemTime, BoobyTrapError>(BoobyTrapError::IceSlip),
{
    Err(BoobyTrapError::IceSlip)
}

} // verus!
