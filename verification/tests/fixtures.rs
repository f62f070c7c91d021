use std::sync::Arc;
use uniffi_bindgen_go::fixtures::empty_string_and_bytes::{empty_bytes_test, empty_string_test};
use uniffi_bindgen_go::fixtures::errors::{
    get_complex_error, ComplexErrorShape,
    error_boolean, error_duration, error_i16, error_i32, error_i64, error_i8,
    error_optional_timestamp, error_string, error_timestamp, error_u16, error_u32, error_u64,
    error_u8, try_nested, try_string, try_void, validate_message, BoobyTrapError, ErrorNamedError,
    NestedError, ValidationError,
};
use uniffi_bindgen_go::fixtures::name_case::{
    AssociatedENUMTest, AssociatedERRORTest, ENUMTest, ERRORTest, OBJECTTest, RECORDTest,
};
use uniffi_bindgen_go::fixtures::regressions::{get_record, Record};
use uniffi_bindgen_go::fixtures::objects::{
    create_fallible_object1, fallible_object0, return_object1, FallibleObject0, FallibleObject1,
    Object0, Object1, ObjectError,
};

#[test]
fn tripping_fails() {
    assert_eq!(try_void(true), Err(BoobyTrapError::IceSlip));
    assert_eq!(try_void(false), Ok(()));
    assert_eq!(try_string(true), Err(BoobyTrapError::IceSlip));
    assert_eq!(try_string(false), Ok("hello world".to_string()));
    assert_eq!(try_nested(true),
        Err(NestedError::Nested { source: ValidationError::UnknownError }));
    assert_eq!(try_nested(false), Ok(()));
}

#[test]
fn messages_are_validated() {
    assert_eq!(validate_message(100, "byebye".to_string()),
        Err(ValidationError::InvalidUserAndMessage { user_id: 100, message: "byebye".to_string() }));
    assert_eq!(validate_message(100, "hello".to_string()),
        Err(ValidationError::InvalidUser { user_id: 100 }));
    assert_eq!(validate_message(7, "byebye".to_string()),
        Err(ValidationError::InvalidMessage { message: "byebye".to_string() }));
    assert_eq!(validate_message(7, "hello".to_string()), Ok(()));
    assert_eq!(validate_message(-100, "Byebye".to_string()), Ok(()));
}

#[test]
fn every_return_type_can_fail() {
    assert_eq!(error_boolean(), Err(BoobyTrapError::IceSlip));
    assert_eq!(error_duration(), Err(BoobyTrapError::IceSlip));
    assert_eq!(error_i8(), Err(BoobyTrapError::IceSlip));
    assert_eq!(error_u8(), Err(BoobyTrapError::IceSlip));
    assert_eq!(error_i16(), Err(BoobyTrapError::IceSlip));
    assert_eq!(error_u16(), Err(BoobyTrapError::IceSlip));
    assert_eq!(error_i32(), Err(BoobyTrapError::IceSlip));
    assert_eq!(error_u32(), Err(BoobyTrapError::IceSlip));
    assert_eq!(error_i64(), Err(BoobyTrapError::IceSlip));
    assert_eq!(error_u64(), Err(BoobyTrapError::IceSlip));
    assert_eq!(error_optional_timestamp(), Err(BoobyTrapError::IceSlip));
    assert_eq!(error_string(), Err(BoobyTrapError::IceSlip));
    assert_eq!(error_timestamp(), Err(BoobyTrapError::IceSlip));
}

#[test]
fn errors_say_what_went_wrong() {
    assert_eq!(BoobyTrapError::IceSlip.message(), "You slipped on deliberately poured ice");
    assert_eq!(BoobyTrapError::HotDoorKnob.message(), "A hot door knob has burnt your hand");
    assert_eq!(ValidationError::InvalidUser { user_id: 100 }.message(), "Invalid user_id 100");
    assert_eq!(ValidationError::InvalidUser { user_id: -7 }.message(), "Invalid user_id -7");
    assert_eq!(ValidationError::InvalidUser { user_id: i32::MIN }.message(),
        "Invalid user_id -2147483648");
    assert_eq!(ValidationError::InvalidMessage { message: "byebye".to_string() }.message(),
        "Invalid message byebye");
    assert_eq!(
        ValidationError::InvalidUserAndMessage { user_id: 100, message: "byebye".to_string() }
            .message(),
        "Invalid user 100 and message byebye");
    assert_eq!(ValidationError::UnknownError.message(), "Unknown error");
    assert_eq!(ErrorNamedError::Error { error: "boom".to_string() }.message(), "Error boom");
    assert_eq!(NestedError::Nested { source: ValidationError::UnknownError }.message(),
        "Unknown error");
    assert_eq!(ObjectError::InvalidOperation.message(), "InvalidOperation");
    assert_eq!(ERRORTest::VARIANTOne.message(), "Test");
    assert_eq!(AssociatedERRORTest::VARIANTTest { code: 1 }.message(), "Test");
}

#[test]
fn names_in_odd_case() {
    uniffi_bindgen_go::fixtures::name_case::test();
    let object = OBJECTTest::new();
    object.test();
    assert_eq!(object, OBJECTTest::new_alternate());
    assert_eq!(RECORDTest { test: 3 }.test, 3);
    assert_eq!(ENUMTest::VARIANTOne, ENUMTest::VARIANTOne);
    assert_eq!(AssociatedENUMTest::VARIANTTest { code: 2 },
        AssociatedENUMTest::VARIANTTest { code: 2 });
}

#[test]
fn objects_are_made() {
    assert_eq!(Object0::new(), Object0::new_custom());
    assert_eq!(Object1::new("hi".to_string()).get_message(), "hi");
    assert_eq!(Object1::new_custom("ho".to_string()).get_message(), "ho");
    let object = Arc::new(Object1::new("kept".to_string()));
    assert!(Arc::ptr_eq(&object, &return_object1(object.clone())));
    assert_eq!(fallible_object0(false), Ok(Arc::new(Object0::new())));
    assert_eq!(fallible_object0(true), Err(ObjectError::InvalidOperation));
}

#[test]
fn fallible_constructors() {
    assert_eq!(FallibleObject0::new(), Err(ObjectError::InvalidOperation));
    assert_eq!(FallibleObject0::new_custom(), Err(ObjectError::InvalidOperation));
    assert_eq!(FallibleObject1::new(String::new()), Err(ObjectError::InvalidOperation));
    assert_eq!(FallibleObject1::new_custom(String::new()), Err(ObjectError::InvalidOperation));
    assert_eq!(FallibleObject1::new("m".to_string()).unwrap().get_message(), "m");
    assert_eq!(FallibleObject1::new_custom("n".to_string()).unwrap().get_message(), "n");
    assert_eq!(create_fallible_object1(String::new()), Err(ObjectError::InvalidOperation));
    assert_eq!(create_fallible_object1("m".to_string()).unwrap().get_message(), "m");
}

#[test]
fn complex_errors_go_by_name() {
    assert_eq!(get_complex_error("struct".to_string()), Err(ComplexErrorShape::Struct));
    assert_eq!(get_complex_error("list".to_string()), Err(ComplexErrorShape::List));
    assert_eq!(get_complex_error("map".to_string()), Err(ComplexErrorShape::Dictionary));
    assert_eq!(get_complex_error("option".to_string()), Err(ComplexErrorShape::Optional));
    assert_eq!(get_complex_error("".to_string()), Ok(()));
    assert_eq!(get_complex_error("Struct".to_string()), Ok(()));
    assert_eq!(get_complex_error("other".to_string()), Ok(()));
}

#[test]
fn empty_values_are_present() {
    assert_eq!(empty_string_test(), Some(String::new()));
    assert_eq!(empty_bytes_test(), Some(vec![]));
}

#[test]
fn the_record_of_the_futures() {
    assert_eq!(get_record(), Record { id: "foo".to_string(), tag: "bar".to_string() });
}
