use uniffi_bindgen_go::gen_go::filters;
use uniffi_bindgen_go::gen_go::interface::{
    ComponentInterface, ExternalKind, Field, ObjectImpl, Type,
};
use uniffi_bindgen_go::gen_go::{CodeType, GoCodeOracle};
use uniffi_bindgen_go::gen_go::renderer::TypeRenderer;
use uniffi_bindgen_go::gen_go::config::Config;

fn ci(errors: &[&str]) -> ComponentInterface {
    ComponentInterface {
        namespace: "geometry".to_string(),
        types: vec![],
        errors: errors.iter().map(|e| e.to_string()).collect(),
        objects: vec![],
        callback_interfaces: vec![],
    }
}

fn record(name: &str) -> Type {
    Type::Record { module: "geometry".to_string(), name: name.to_string() }
}

fn an_enum(name: &str) -> Type {
    Type::Enum { module: "geometry".to_string(), name: name.to_string() }
}

fn object(name: &str, imp: ObjectImpl) -> Type {
    Type::Object { module: "geometry".to_string(), name: name.to_string(), imp }
}

fn callback(name: &str) -> Type {
    Type::CallbackInterface { module: "geometry".to_string(), name: name.to_string() }
}

fn external(name: &str, kind: ExternalKind) -> Type {
    Type::External {
        module: "other_crate".to_string(),
        name: name.to_string(),
        namespace: "other".to_string(),
        kind,
        tagged: false,
    }
}

fn custom(name: &str) -> Type {
    Type::Custom {
        module: "geometry".to_string(),
        name: name.to_string(),
        builtin: Box::new(Type::String),
    }
}

fn optional(inner: Type) -> Type {
    Type::Optional { inner_type: Box::new(inner) }
}

fn sequence(inner: Type) -> Type {
    Type::Sequence { inner_type: Box::new(inner) }
}

fn mapping(key: Type, value: Type) -> Type {
    Type::Mapping { key_type: Box::new(key), value_type: Box::new(value) }
}

fn every_kind() -> Vec<Type> {
    vec![
        Type::UInt8, Type::Int8, Type::UInt16, Type::Int16, Type::UInt32, Type::Int32,
        Type::UInt64, Type::Int64, Type::Float32, Type::Float64, Type::Boolean, Type::String,
        Type::Bytes, Type::Timestamp, Type::Duration,
        object("Sprite", ObjectImpl::Struct), object("Listener", ObjectImpl::CallbackTrait),
        record("Point"), an_enum("Shape"), callback("Logger"),
        optional(Type::String), sequence(record("Point")), mapping(Type::String, Type::Int64),
        external("Guid", ExternalKind::DataClass), external("Handle", ExternalKind::Interface),
        custom("Url"), Type::ForeignExecutor,
    ]
}

fn label(t: &Type) -> String {
    filters::type_label(t, &ci(&[])).unwrap()
}

fn canonical(t: &Type) -> String {
    filters::canonical_name(t).unwrap()
}

#[test]
fn primitive_labels() {
    assert_eq!(label(&Type::UInt8), "uint8");
    assert_eq!(label(&Type::Int8), "int8");
    assert_eq!(label(&Type::UInt16), "uint16");
    assert_eq!(label(&Type::Int16), "int16");
    assert_eq!(label(&Type::UInt32), "uint32");
    assert_eq!(label(&Type::Int32), "int32");
    assert_eq!(label(&Type::UInt64), "uint64");
    assert_eq!(label(&Type::Int64), "int64");
    assert_eq!(label(&Type::Float32), "float32");
    assert_eq!(label(&Type::Float64), "float64");
    assert_eq!(label(&Type::Boolean), "bool");
    assert_eq!(label(&Type::String), "string");
    assert_eq!(label(&Type::Bytes), "[]byte");
    assert_eq!(label(&Type::Timestamp), "time.Time");
    assert_eq!(label(&Type::Duration), "time.Duration");
    assert_eq!(label(&Type::ForeignExecutor), "UniFfiForeignExecutor");
}

#[test]
fn primitive_canonical_names() {
    assert_eq!(canonical(&Type::UInt8), "uint8");
    assert_eq!(canonical(&Type::Float64), "float64");
    assert_eq!(canonical(&Type::Boolean), "bool");
    assert_eq!(canonical(&Type::String), "string");
    assert_eq!(canonical(&Type::Bytes), "Bytes");
    assert_eq!(canonical(&Type::Timestamp), "Timestamp");
    assert_eq!(canonical(&Type::Duration), "Duration");
    assert_eq!(canonical(&Type::ForeignExecutor), "ForeignExecutor");
}

#[test]
fn compound_labels_nest() {
    assert_eq!(label(&optional(Type::String)), "*string");
    assert_eq!(label(&sequence(Type::UInt8)), "[]uint8");
    assert_eq!(label(&mapping(Type::String, Type::Int64)), "map[string]int64");
    assert_eq!(label(&optional(sequence(Type::UInt8))), "*[]uint8");
    assert_eq!(label(&mapping(Type::String, sequence(optional(record("point"))))),
        "map[string][]*Point");
    assert_eq!(label(&sequence(mapping(Type::Int32, mapping(Type::String, Type::Boolean)))),
        "[]map[int32]map[string]bool");
}

#[test]
fn compound_canonical_names_nest() {
    assert_eq!(canonical(&optional(Type::String)), "Optionalstring");
    assert_eq!(canonical(&sequence(Type::Bytes)), "SequenceBytes");
    assert_eq!(canonical(&mapping(Type::String, Type::Int64)), "Mapstringint64");
    assert_eq!(canonical(&optional(sequence(record("point")))), "OptionalSequenceTypePoint");
    assert_eq!(canonical(&mapping(Type::String, optional(an_enum("shape")))),
        "MapstringOptionalShape");
}

#[test]
fn named_types() {
    assert_eq!(label(&record("point")), "Point");
    assert_eq!(canonical(&record("point")), "TypePoint");
    assert_eq!(label(&an_enum("shape")), "Shape");
    assert_eq!(canonical(&an_enum("shape")), "Shape");
    assert_eq!(label(&callback("Logger")), "Logger");
    assert_eq!(canonical(&callback("Logger")), "CallbackInterfaceLogger");
    assert_eq!(label(&custom("Url")), "Url");
    assert_eq!(canonical(&custom("Url")), "TypeUrl");
}

#[test]
fn external_types_are_qualified() {
    let data = external("Guid", ExternalKind::DataClass);
    let object = external("Handle", ExternalKind::Interface);
    let a_trait = external("Getter", ExternalKind::Trait);
    assert_eq!(label(&data), "other.Guid");
    assert_eq!(label(&object), "*other.Handle");
    assert_eq!(label(&a_trait), "other.Getter");
    assert_eq!(canonical(&data), "Guid");
    assert_eq!(filters::ffi_converter_name(&data).unwrap(), "other.FfiConverterGuid");
    assert_eq!(filters::ffi_converter_instance(&data).unwrap(), "other.FfiConverterGuidINSTANCE");
    assert_eq!(filters::ffi_destroyer_name(&data).unwrap(), "other.FfiDestroyerGuid");
    assert_eq!(filters::lower_fn(&data).unwrap(), "other.FfiConverterGuidINSTANCE.Lower");
    assert_eq!(filters::lift_fn(&data).unwrap(), "other.FfiConverterGuidINSTANCE.Lift");
    assert_eq!(filters::read_fn(&data).unwrap(), "other.FfiConverterGuidINSTANCE.Read");
    assert_eq!(filters::write_fn(&data).unwrap(), "other.FfiConverterGuidINSTANCE.Write");
    assert_eq!(filters::destroy_fn(&data).unwrap(), "other.FfiDestroyerGuid{}.Destroy");
}

#[test]
fn converter_names_are_derived_from_the_canonical_name() {
    let t = sequence(Type::String);
    assert_eq!(filters::ffi_converter_name(&t).unwrap(), "FfiConverterSequencestring");
    assert_eq!(filters::ffi_converter_instance(&t).unwrap(), "FfiConverterSequencestringINSTANCE");
    assert_eq!(filters::ffi_destroyer_name(&t).unwrap(), "FfiDestroyerSequencestring");
    assert_eq!(filters::lower_fn(&t).unwrap(), "FfiConverterSequencestringINSTANCE.Lower");
    assert_eq!(filters::lift_fn(&t).unwrap(), "FfiConverterSequencestringINSTANCE.Lift");
    assert_eq!(filters::read_fn(&t).unwrap(), "FfiConverterSequencestringINSTANCE.Read");
    assert_eq!(filters::write_fn(&t).unwrap(), "FfiConverterSequencestringINSTANCE.Write");
    assert_eq!(filters::destroy_fn(&t).unwrap(), "FfiDestroyerSequencestring{}.Destroy");
}

#[test]
fn every_kind_has_a_canonical_name_and_resolves_the_same_twice() {
    let interface = ci(&["Shape"]);
    for t in every_kind() {
        let first = GoCodeOracle.find(&t);
        let second = GoCodeOracle.find(&t);
        assert!(!first.canonical_name().is_empty(), "{:?}", t);
        assert_eq!(first.canonical_name(), second.canonical_name());
        assert_eq!(first.type_label(&interface), second.type_label(&interface));
        assert_eq!(first.ffi_converter_name(), second.ffi_converter_name());
        assert_eq!(first.ffi_converter_instance(), second.ffi_converter_instance());
        assert_eq!(first.ffi_destroyer_name(), second.ffi_destroyer_name());
        assert_eq!(first.lower(), second.lower());
        assert_eq!(first.lift(), second.lift());
        assert_eq!(first.read(), second.read());
        assert_eq!(first.write(), second.write());
        assert_eq!(first.destroy(), second.destroy());
        assert_eq!(first.initialization_fn(), second.initialization_fn());
        assert_eq!(first.imports(), None);
    }
}

#[test]
fn canonical_name_is_empty_only_for_a_blank_name() {
    assert_eq!(canonical(&an_enum("")), "");
    assert_eq!(canonical(&an_enum("__")), "");
    assert_eq!(canonical(&object("", ObjectImpl::Struct)), "");
    assert_eq!(canonical(&external("", ExternalKind::DataClass)), "");
    assert_eq!(canonical(&record("")), "Type");
    assert_eq!(canonical(&callback("")), "CallbackInterface");
    assert_eq!(canonical(&optional(an_enum(""))), "Optional");
}

#[test]
fn distinct_canonical_names_give_distinct_converters() {
    let kinds = every_kind();
    for a in &kinds {
        for b in &kinds {
            if canonical(a) != canonical(b) {
                assert_ne!(filters::ffi_converter_name(a).unwrap(),
                    filters::ffi_converter_name(b).unwrap());
                assert_ne!(filters::ffi_destroyer_name(a).unwrap(),
                    filters::ffi_destroyer_name(b).unwrap());
                assert_ne!(filters::lower_fn(a).unwrap(), filters::lower_fn(b).unwrap());
            }
        }
    }
}

#[test]
fn object_with_callback_interface_has_no_pointer() {
    let with = object("Listener", ObjectImpl::CallbackTrait);
    let without = object("Listener", ObjectImpl::Struct);
    let a_trait = object("Listener", ObjectImpl::Trait);
    assert_eq!(label(&with), "Listener");
    assert_eq!(label(&without), "*Listener");
    assert_eq!(label(&a_trait), "*Listener");
    assert_eq!(label(&without), format!("*{}", label(&with)));
    assert_eq!(canonical(&with), "Listener");
    assert_eq!(canonical(&with), canonical(&without));
    assert_eq!(filters::ffi_converter_name(&with).unwrap(),
        filters::ffi_converter_name(&without).unwrap());
}

#[test]
fn error_enum_is_a_reference() {
    let shape = an_enum("Shape");
    let as_error = ci(&["Other", "Shape"]);
    let as_value = ci(&["Other"]);
    assert_eq!(filters::type_label(&shape, &as_error).unwrap(), "*Shape");
    assert_eq!(filters::type_label(&shape, &as_value).unwrap(), "Shape");
    assert_eq!(filters::type_label(&shape, &ci(&[])).unwrap(), "Shape");
    assert_eq!(filters::type_label(&optional(shape), &as_error).unwrap(), "**Shape");
}

#[test]
fn error_registration_goes_by_the_name_as_declared() {
    let shape = an_enum("shape_error");
    assert_eq!(filters::type_label(&shape, &ci(&["shape_error"])).unwrap(), "*ShapeError");
    assert_eq!(filters::type_label(&shape, &ci(&["ShapeError"])).unwrap(), "ShapeError");
    assert!(ci(&["a", "b"]).is_name_used_as_error("b"));
    assert!(!ci(&["a", "b"]).is_name_used_as_error("c"));
    assert!(!ci(&[]).is_name_used_as_error(""));
}

#[test]
fn record_point_scenario() {
    let interface = ci(&[]);
    let point = record("Point");
    let handler = GoCodeOracle.find(&point);
    assert!(matches!(handler, CodeType::Record(_)));
    assert_eq!(handler.type_label(&interface), "Point");
    assert_eq!(handler.canonical_name(), "TypePoint");
    assert_eq!(handler.ffi_converter_name(), "FfiConverterTypePoint");
    assert_eq!(handler.ffi_converter_instance(), "FfiConverterTypePointINSTANCE");
    assert_eq!(handler.initialization_fn(), None);
    let x = Field { name: "x".to_string(), type_: Type::Float64 };
    assert_eq!(filters::type_label(&x.as_type(), &interface).unwrap(), "float64");
}

#[test]
fn startup_hooks() {
    let hook = |t: &Type| GoCodeOracle.find(t).initialization_fn();
    assert_eq!(hook(&callback("Logger")),
        Some("FfiConverterCallbackInterfaceLoggerINSTANCE.register".to_string()));
    assert_eq!(hook(&object("Listener", ObjectImpl::CallbackTrait)),
        Some("FfiConverterListenerINSTANCE.register".to_string()));
    assert_eq!(hook(&object("Listener", ObjectImpl::Struct)), None);
    assert_eq!(hook(&object("Listener", ObjectImpl::Trait)), None);
    assert_eq!(hook(&Type::ForeignExecutor), Some("uniffiInitForeignExecutor".to_string()));
    assert_eq!(hook(&record("Point")), None);
    assert_eq!(hook(&Type::String), None);
    assert_eq!(hook(&optional(callback("Logger"))), None);
}

#[test]
fn handlers_hold_their_inner_types() {
    let t = mapping(Type::String, sequence(Type::Int8));
    match GoCodeOracle.create_code_type(t) {
        CodeType::Mapping(h) => {
            assert_eq!(h.key, Type::String);
            assert_eq!(h.value, sequence(Type::Int8));
        }
        other => panic!("{:?}", other),
    }
    match GoCodeOracle.find(&optional(Type::Bytes)) {
        CodeType::Optional(h) => assert_eq!(h.inner, Type::Bytes),
        other => panic!("{:?}", other),
    }
}

#[test]
fn field_of_an_error_type_is_a_pointer() {
    let config = Config::default();
    let interface = ci(&["Shape"]);
    let renderer = TypeRenderer::new(&config, &interface);
    let plain = Field { name: "p".to_string(), type_: record("Point") };
    let failing = Field { name: "e".to_string(), type_: record("Shape") };
    assert_eq!(renderer.field_type_name(&plain, &interface), "Point");
    assert_eq!(renderer.field_type_name(&failing, &interface), "*Shape");
    let an_error = Field { name: "e".to_string(), type_: an_enum("Shape") };
    assert_eq!(renderer.field_type_name(&an_error, &interface), "*Shape");
}

#[test]
fn clones_are_equal() {
    for t in every_kind() {
        assert_eq!(t.clone(), t);
    }
}
