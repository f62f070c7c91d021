use uniffi_bindgen_go::gen_go::filters;
use uniffi_bindgen_go::gen_go::interface::{
    ExternalFfiMetadata, ExternalKind, FfiArgument, FfiCallbackFunction, FfiType, ObjectImpl, Type,
};
use uniffi_bindgen_go::gen_go::GoCodeOracle;

fn reference(inner: FfiType) -> FfiType {
    FfiType::Reference(Box::new(inner))
}

fn lowered(t: Type) -> FfiType {
    filters::into_ffi_type(&t).unwrap()
}

#[test]
fn numbers_lower_to_themselves() {
    assert_eq!(lowered(Type::UInt8), FfiType::UInt8);
    assert_eq!(lowered(Type::Int8), FfiType::Int8);
    assert_eq!(lowered(Type::UInt16), FfiType::UInt16);
    assert_eq!(lowered(Type::Int16), FfiType::Int16);
    assert_eq!(lowered(Type::UInt32), FfiType::UInt32);
    assert_eq!(lowered(Type::Int32), FfiType::Int32);
    assert_eq!(lowered(Type::UInt64), FfiType::UInt64);
    assert_eq!(lowered(Type::Int64), FfiType::Int64);
    assert_eq!(lowered(Type::Float32), FfiType::Float32);
    assert_eq!(lowered(Type::Float64), FfiType::Float64);
    assert_eq!(lowered(Type::Boolean), FfiType::Int8);
}

#[test]
fn values_lower_to_buffers_and_objects_to_pointers() {
    let named = |name: &str| (String::from("m"), name.to_string());
    assert_eq!(lowered(Type::String), FfiType::RustBuffer(None));
    assert_eq!(lowered(Type::Bytes), FfiType::RustBuffer(None));
    assert_eq!(lowered(Type::Timestamp), FfiType::RustBuffer(None));
    assert_eq!(lowered(Type::Duration), FfiType::RustBuffer(None));
    let (module, name) = named("Point");
    assert_eq!(lowered(Type::Record { module, name }), FfiType::RustBuffer(None));
    let (module, name) = named("Shape");
    assert_eq!(lowered(Type::Enum { module, name }), FfiType::RustBuffer(None));
    assert_eq!(lowered(Type::Optional { inner_type: Box::new(Type::UInt8) }),
        FfiType::RustBuffer(None));
    assert_eq!(lowered(Type::Sequence { inner_type: Box::new(Type::UInt8) }),
        FfiType::RustBuffer(None));
    assert_eq!(lowered(Type::Mapping {
        key_type: Box::new(Type::String),
        value_type: Box::new(Type::UInt8),
    }), FfiType::RustBuffer(None));
    let (module, name) = named("Sprite");
    assert_eq!(lowered(Type::Object { module, name, imp: ObjectImpl::Struct }),
        FfiType::RustArcPtr("Sprite".to_string()));
    let (module, name) = named("Logger");
    assert_eq!(lowered(Type::CallbackInterface { module, name }), FfiType::UInt64);
    assert_eq!(lowered(Type::ForeignExecutor), FfiType::Handle);
}

#[test]
fn external_and_custom_types_lower_by_what_is_behind_them() {
    let external = |kind: ExternalKind| Type::External {
        module: "other_crate".to_string(),
        name: "Guid".to_string(),
        namespace: "other".to_string(),
        kind,
        tagged: true,
    };
    assert_eq!(lowered(external(ExternalKind::Interface)), FfiType::RustArcPtr("Guid".to_string()));
    assert_eq!(lowered(external(ExternalKind::Trait)), FfiType::RustArcPtr("Guid".to_string()));
    assert_eq!(lowered(external(ExternalKind::DataClass)), FfiType::RustBuffer(Some(
        ExternalFfiMetadata {
            name: "Guid".to_string(),
            module: "other_crate".to_string(),
            namespace: "other".to_string(),
        },
    )));
    let custom = |builtin: Type| Type::Custom {
        module: "m".to_string(),
        name: "Wrapped".to_string(),
        builtin: Box::new(builtin),
    };
    assert_eq!(lowered(custom(Type::String)), FfiType::RustBuffer(None));
    assert_eq!(lowered(custom(Type::Int64)), FfiType::Int64);
    assert_eq!(lowered(custom(custom(Type::Boolean))), FfiType::Int8);
}

#[test]
fn c_labels() {
    let label = |t: FfiType| filters::cgo_ffi_type(&t).unwrap();
    assert_eq!(label(FfiType::Int8), "int8_t");
    assert_eq!(label(FfiType::UInt8), "uint8_t");
    assert_eq!(label(FfiType::Int16), "int16_t");
    assert_eq!(label(FfiType::UInt16), "uint16_t");
    assert_eq!(label(FfiType::Int32), "int32_t");
    assert_eq!(label(FfiType::UInt32), "uint32_t");
    assert_eq!(label(FfiType::Int64), "int64_t");
    assert_eq!(label(FfiType::UInt64), "uint64_t");
    assert_eq!(label(FfiType::Float32), "float");
    assert_eq!(label(FfiType::Float64), "double");
    assert_eq!(label(FfiType::RustArcPtr("Sprite".to_string())), "void*");
    assert_eq!(label(FfiType::Handle), "uint64_t");
    assert_eq!(label(FfiType::VoidPointer), "void*");
    assert_eq!(label(FfiType::RustBuffer(None)), "RustBuffer");
    assert_eq!(label(FfiType::ForeignBytes), "ForeignBytes");
    assert_eq!(label(FfiType::RustCallStatus), "RustCallStatus");
    assert_eq!(label(FfiType::Callback("foreign_future_free".to_string())),
        "UniffiForeignFutureFree");
    assert_eq!(label(FfiType::Struct("foreign_future".to_string())), "UniffiForeignFuture");
    assert_eq!(GoCodeOracle.ffi_type_label(&FfiType::Int32), "int32_t");
}

#[test]
fn c_pointers_come_behind() {
    let label = |t: FfiType| filters::cgo_ffi_type(&t).unwrap();
    assert_eq!(label(reference(FfiType::Int32)), "int32_t*");
    assert_eq!(label(reference(reference(FfiType::RustBuffer(None)))), "RustBuffer**");
    assert_eq!(label(reference(FfiType::RustCallStatus)), "RustCallStatus*");
    assert_eq!(label(reference(FfiType::VoidPointer)), "void**");
    assert_eq!(label(FfiType::Int32.reference()), "int32_t*");
}

#[test]
fn go_names_of_ffi_types() {
    let name = |t: FfiType| filters::ffi_type_name(&t).unwrap();
    assert_eq!(name(FfiType::RustArcPtr("Sprite".to_string())), "unsafe.Pointer");
    assert_eq!(name(FfiType::RustBuffer(None)), "RustBufferI");
    assert_eq!(name(FfiType::VoidPointer), "*C.void");
    assert_eq!(name(FfiType::Int8), "C.int8_t");
    assert_eq!(name(FfiType::UInt64), "C.uint64_t");
    assert_eq!(name(FfiType::Handle), "C.uint64_t");
    assert_eq!(name(FfiType::Float64), "C.double");
    assert_eq!(name(FfiType::ForeignBytes), "C.ForeignBytes");
    assert_eq!(name(FfiType::RustCallStatus), "C.RustCallStatus");
    assert_eq!(name(FfiType::Struct("vtable_logger".to_string())), "C.UniffiVtableLogger");
    assert_eq!(name(FfiType::Callback("free".to_string())), "C.UniffiFree");
    assert_eq!(name(reference(FfiType::RustCallStatus)), "*C.RustCallStatus");
    assert_eq!(name(reference(reference(FfiType::Int8))), "**C.int8_t");
    assert_eq!(name(reference(FfiType::RustBuffer(None))), "*RustBufferI");
}

#[test]
fn exported_names_differ_for_buffers_only() {
    let safe = |t: FfiType| filters::ffi_type_name_cgo_safe(&t).unwrap();
    let name = |t: FfiType| filters::ffi_type_name(&t).unwrap();
    assert_eq!(safe(FfiType::RustBuffer(None)), "RustBuffer");
    assert_eq!(safe(reference(FfiType::RustBuffer(None))), "*RustBuffer");
    assert_ne!(safe(FfiType::RustBuffer(None)), name(FfiType::RustBuffer(None)));
    let others = || vec![
        FfiType::UInt8, FfiType::Int8, FfiType::UInt16, FfiType::Int16, FfiType::UInt32,
        FfiType::Int32, FfiType::UInt64, FfiType::Int64, FfiType::Float32, FfiType::Float64,
        FfiType::RustArcPtr("Sprite".to_string()), FfiType::ForeignBytes,
        FfiType::Callback("cb".to_string()), FfiType::Struct("st".to_string()), FfiType::Handle,
        FfiType::RustCallStatus, FfiType::VoidPointer, reference(FfiType::Handle),
    ];
    for (a, b) in others().into_iter().zip(others()) {
        assert_eq!(safe(a), name(b));
    }
}

#[test]
fn helper_of_the_first_callback_argument() {
    let arg = |name: &str, t: FfiType| FfiArgument::new(name.to_string(), t);
    let cb = FfiCallbackFunction {
        name: "CallbackInterfaceFetcherMethod0".to_string(),
        arguments: vec![
            arg("uniffi_handle", FfiType::UInt64),
            arg("url", FfiType::RustBuffer(None)),
            arg("uniffi_future_callback", FfiType::Callback("foreign_future_complete_u8".to_string())),
            arg("uniffi_callback_data", FfiType::UInt64),
            arg("second", FfiType::Callback("other".to_string())),
        ],
        return_type: None,
        has_rust_call_status_arg: false,
    };
    assert_eq!(filters::find_ffi_callback_helper(&cb).unwrap(),
        "C.call_UniffiForeignFutureCompleteU8");
}

#[test]
fn clones_of_ffi_types_are_equal() {
    let t = reference(FfiType::RustBuffer(Some(ExternalFfiMetadata {
        name: "Guid".to_string(),
        module: "other_crate".to_string(),
        namespace: "other".to_string(),
    })));
    assert_eq!(t.clone(), t);
    let a = FfiArgument::new("handle".to_string(), FfiType::Handle);
    assert_eq!(a.clone(), a);
}
