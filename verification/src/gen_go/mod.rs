//! The Go code oracle: names, labels and converter symbols for interface types.

use vstd::prelude::*;

use self::case::{
    lower_camel_case, snake_case, to_lower_camel_case, to_snake_case, to_upper_camel_case,
    upper_camel_case,
};
use self::callback_interface::CallbackInterfaceCodeType;
use self::compounds::{MapCodeType, OptionalCodeType, SequenceCodeType};
use self::converter::{
    converter_instance, converter_name, destroy_expr, destroyer_name, lift_expr, lower_expr,
    name_converter, name_destroyer, name_instance, read_expr, write_expr,
};
use self::custom::CustomCodeType;
use self::enum_::EnumCodeType;
use self::executor::ForeignExecutorCodeType;
use self::external::ExternalCodeType;
use self::interface::{
    ComponentInterface, FfiCallbackFunction, FfiType, Literal, Object, Type,
};
use self::miscellany::{DurationCodeType, TimestampCodeType};
use self::object::ObjectCodeType;
use self::primitives::{literal_renders, spec_render_literal, Primitive, PrimitiveCodeType};
use self::record::RecordCodeType;
use self::text::{concat, concat3, str_eq};

pub mod callback_interface;
pub mod case;
pub mod compounds;
pub mod config;
pub mod converter;
pub mod custom;
pub mod enum_;
pub mod executor;
pub mod external;
pub mod filters;
pub mod header;
pub mod imports;
pub mod indentation;
pub mod interface;
pub mod miscellany;
pub mod numerals;
pub mod object;
pub mod primitives;
pub mod quoting;
pub mod record;
pub mod renderer;
pub mod text;
pub mod wrapper;

verus! {

/// The Go rendering of a type name: records, enums, objects and errors.
pub open spec fn spec_class_name(nm: Seq<char>) -> Seq<char> {
    upper_camel_case(nm)
}

/// The name of the Go interface that an object's methods are declared in.
pub open spec fn spec_interface_name(nm: Seq<char>) -> Seq<char> {
    nm + "Interface"@
}

/// The name of the Go struct behind an object that foreign code can implement too.
pub open spec fn spec_impl_name(nm: Seq<char>) -> Seq<char> {
    nm + "Impl"@
}

/// The two Go names of an object: the interface with its methods, then the
/// struct that implements it. An object that foreign code can implement is
/// known by the interface; any other object is known by the struct.
pub open spec fn spec_object_names(obj: Object) -> (Seq<char>, Seq<char>) {
    let class_name = spec_class_name(obj.name@);
    if obj.spec_has_callback_interface() {
        (class_name, spec_impl_name(class_name))
    } else {
        (spec_interface_name(class_name), class_name)
    }
}

/// The Go rendering of a function name.
pub open spec fn spec_fn_name(nm: Seq<char>) -> Seq<char> {
    upper_camel_case(nm)
}

/// The words that Go reserves.
pub open spec fn is_keyword(nm: Seq<char>) -> bool {
    nm == "break"@
        || nm == "case"@
        || nm == "chan"@
        || nm == "const"@
        || nm == "continue"@
        || nm == "default"@
        || nm == "defer"@
        || nm == "else"@
        || nm == "fallthrough"@
        || nm == "for"@
        || nm == "func"@
        || nm == "go"@
        || nm == "goto"@
        || nm == "if"@
        || nm == "import"@
        || nm == "interface"@
        || nm == "map"@
        || nm == "package"@
        || nm == "range"@
        || nm == "return"@
        || nm == "select"@
        || nm == "struct"@
        || nm == "switch"@
        || nm == "type"@
        || nm == "var"@
}

/// A name that no longer is a reserved word: a reserved word gets `var_` in
/// front, every other name stays.
pub open spec fn escape_keyword(nm: Seq<char>) -> Seq<char> {
    if is_keyword(nm) {
        "var_"@ + nm
    } else {
        nm
    }
}

/// A name on its way to a variable name: escaped, then in lower camel case.
pub open spec fn escaped_and_folded(nm: Seq<char>) -> Seq<char> {
    lower_camel_case(escape_keyword(nm))
}

/// The Go rendering of a variable name: the escaped name in lower camel case.
///
/// Putting a name in lower camel case can make a reserved word of it, as of
/// `Type`. Such a name is escaped and folded once more. Should even that give
/// a reserved word, the prefix stays on it as it is.
pub open spec fn spec_var_name(nm: Seq<char>) -> Seq<char> {
    let folded = escaped_and_folded(nm);
    if is_keyword(folded) {
        escape_keyword(escaped_and_folded(folded))
    } else {
        folded
    }
}

/// The Go rendering of an enum variant.
pub open spec fn spec_enum_variant_name(nm: Seq<char>) -> Seq<char> {
    upper_camel_case(nm)
}

/// The import path of the package generated for an external module.
pub open spec fn spec_import_name(nm: Seq<char>) -> Seq<char> {
    snake_case(nm)
}

/// The exported symbol through which native code calls one method of a foreign
/// implementation: the module's name, then the callback function's.
pub open spec fn spec_cgo_callback_fn_name(callback_name: Seq<char>, module: Seq<char>) -> Seq<char> {
    module + "_cgo_dispatch"@ + callback_name
}

/// The exported symbol through which native code drops its handle to a foreign
/// implementation of the interface `nm`.
pub open spec fn spec_cgo_vtable_free_fn_name(nm: Seq<char>, module: Seq<char>) -> Seq<char> {
    module + "_cgo_dispatchCallbackInterface"@ + nm + "Free"@
}

/// The dispatch symbols of one definition differ from module to module, so
/// that two modules linked into one process do not meet in its table of
/// symbols.
pub proof fn lemma_dispatch_symbols_distinct(name: Seq<char>, a: Seq<char>, b: Seq<char>)
    requires
        a != b,
    ensures
        spec_cgo_callback_fn_name(name, a) != spec_cgo_callback_fn_name(name, b),
        spec_cgo_vtable_free_fn_name(name, a) != spec_cgo_vtable_free_fn_name(name, b),
{
    if spec_cgo_callback_fn_name(name, a) == spec_cgo_callback_fn_name(name, b) {
        assert(a + ("_cgo_dispatch"@ + name) =~= a + "_cgo_dispatch"@ + name);
        assert(b + ("_cgo_dispatch"@ + name) =~= b + "_cgo_dispatch"@ + name);
        self::converter::lemma_same_suffix(a, b, "_cgo_dispatch"@ + name);
    }
    if spec_cgo_vtable_free_fn_name(name, a) == spec_cgo_vtable_free_fn_name(name, b) {
        let tail = "_cgo_dispatchCallbackInterface"@ + name + "Free"@;
        assert(a + tail =~= a + "_cgo_dispatchCallbackInterface"@ + name + "Free"@);
        assert(b + tail =~= b + "_cgo_dispatchCallbackInterface"@ + name + "Free"@);
        self::converter::lemma_same_suffix(a, b, tail);
    }
}

/// The C name of an FFI callback function type.
pub open spec fn spec_ffi_callback_name(nm: Seq<char>) -> Seq<char> {
    "Uniffi"@ + upper_camel_case(nm)
}

/// The C name of an FFI struct.
pub open spec fn spec_ffi_struct_name(nm: Seq<char>) -> Seq<char> {
    "Uniffi"@ + upper_camel_case(nm)
}

/// The C spelling of each FFI shape but the pointer to another shape, which is
/// spelled from the shape it points to.
pub open spec fn spec_ffi_type_label(ffi_type: FfiType) -> Seq<char>
    recommends
        !(ffi_type is Reference),
{
    match ffi_type {
        FfiType::Int8 => "int8_t"@,
        FfiType::UInt8 => "uint8_t"@,
        FfiType::Int16 => "int16_t"@,
        FfiType::UInt16 => "uint16_t"@,
        FfiType::Int32 => "int32_t"@,
        FfiType::UInt32 => "uint32_t"@,
        FfiType::Int64 => "int64_t"@,
        FfiType::UInt64 => "uint64_t"@,
        FfiType::Float32 => "float"@,
        FfiType::Float64 => "double"@,
        FfiType::RustArcPtr(_) => "void*"@,
        FfiType::Handle => "uint64_t"@,
        FfiType::VoidPointer => "void*"@,
        FfiType::RustBuffer(_) => "RustBuffer"@,
        FfiType::ForeignBytes => "ForeignBytes"@,
        FfiType::RustCallStatus => "RustCallStatus"@,
        FfiType::Callback(nm) => spec_ffi_callback_name(nm@),
        FfiType::Struct(nm) => spec_ffi_struct_name(nm@),
        FfiType::Reference(_) => Seq::empty(),
    }
}

/// The source of every name and label in the generated Go code.
#[derive(Clone, Copy, Debug)]
pub struct GoCodeOracle;

impl GoCodeOracle {
    /// Get the idiomatic Go rendering of a class name (for enums, records, errors, etc).
    pub fn class_name(&self, nm: &str) -> (r: String)
        ensures
            r@ == spec_class_name(nm@),
    {
        to_upper_camel_case(nm)
    }

    pub fn interface_name(&self, nm: &str) -> (r: String)
        ensures
            r@ == spec_interface_name(nm@),
    {
        concat(nm, "Interface")
    }

    pub fn impl_name(&self, nm: &str) -> (r: String)
        ensures
            r@ == spec_impl_name(nm@),
    {
        concat(nm, "Impl")
    }

    pub fn object_names(&self, obj: &Object) -> (r: (String, String))
        ensures
            (r.0@, r.1@) == spec_object_names(*obj),
    {
        let class_name = self.class_name(obj.name.as_str());
        if obj.has_callback_interface() {
            let imp = self.impl_name(class_name.as_str());
            (class_name, imp)
        } else {
            (self.interface_name(class_name.as_str()), class_name)
        }
    }

    /// Get the idiomatic Go rendering of a function name.
    pub fn fn_name(&self, nm: &str) -> (r: String)
        ensures
            r@ == spec_fn_name(nm@),
    {
        to_upper_camel_case(nm)
    }

    /// Whether `nm` is one of the words that Go reserves.
    pub fn is_reserved(&self, nm: &str) -> (r: bool)
        ensures
            r == is_keyword(nm@),
    {
        // source: https://go.dev/ref/spec#Keywords
        str_eq(nm, "break")
            || str_eq(nm, "case")
            || str_eq(nm, "chan")
            || str_eq(nm, "const")
            || str_eq(nm, "continue")
            || str_eq(nm, "default")
            || str_eq(nm, "defer")
            || str_eq(nm, "else")
            || str_eq(nm, "fallthrough")
            || str_eq(nm, "for")
            || str_eq(nm, "func")
            || str_eq(nm, "go")
            || str_eq(nm, "goto")
            || str_eq(nm, "if")
            || str_eq(nm, "import")
            || str_eq(nm, "interface")
            || str_eq(nm, "map")
            || str_eq(nm, "package")
            || str_eq(nm, "range")
            || str_eq(nm, "return")
            || str_eq(nm, "select")
            || str_eq(nm, "struct")
            || str_eq(nm, "switch")
            || str_eq(nm, "type")
            || str_eq(nm, "var")
    }

    /// Get the idiomatic Go rendering of a variable name.
    ///
    /// A variable named as a reserved word would not compile, so such a name
    /// gets a prefix before it is put in lower camel case, and the result is
    /// looked at again: it is never a reserved word.
    pub fn var_name(&self, nm: &str) -> (r: String)
        ensures
            r@ == spec_var_name(nm@),
            !is_keyword(r@),
    {
        let folded = to_lower_camel_case(self.escape_reserved(nm).as_str());
        if self.is_reserved(folded.as_str()) {
            let again = to_lower_camel_case(self.escape_reserved(folded.as_str()).as_str());
            proof {
                lemma_prefixed_is_no_keyword(again@);
            }
            self.escape_reserved(again.as_str())
        } else {
            folded
        }
    }

    /// The name with `var_` in front if Go reserves it, and unchanged if not.
    pub fn escape_reserved(&self, nm: &str) -> (r: String)
        ensures
            r@ == escape_keyword(nm@),
    {
        if self.is_reserved(nm) {
            // This is done in order to avoid variables named as keywords and causing
            // compilation issues
            let mut s = String::from_str("var_");
            s.append(nm);
            s
        } else {
            nm.to_owned()
        }
    }

    /// Get the idiomatic Go rendering of an individual enum variant.
    pub fn enum_variant_name(&self, nm: &str) -> (r: String)
        ensures
            r@ == spec_enum_variant_name(nm@),
    {
        to_upper_camel_case(nm)
    }

    /// Get the import path for an external type.
    pub fn import_name(&self, nm: &str) -> (r: String)
        ensures
            r@ == spec_import_name(nm@),
    {
        to_snake_case(nm)
    }

    /// Get the cgo symbol name for a callback function.
    pub fn cgo_callback_fn_name(&self, f: &FfiCallbackFunction, module: &str) -> (r: String)
        ensures
            r@ == spec_cgo_callback_fn_name(f.name@, module@),
    {
        concat3(module, "_cgo_dispatch", f.name.as_str())
    }

    /// Get the cgo symbol name for a vtable free function.
    pub fn cgo_vtable_free_fn_name(&self, nm: &str, module: &str) -> (r: String)
        ensures
            r@ == spec_cgo_vtable_free_fn_name(nm@, module@),
    {
        let mut s = concat3(module, "_cgo_dispatchCallbackInterface", nm);
        s.append("Free");
        s
    }

    /// The C spelling of an FFI shape. A pointer to another shape has none of its
    /// own: `filters::cgo_ffi_type` spells it from the shape it points to.
    pub fn ffi_type_label(&self, ffi_type: &FfiType) -> (r: String)
        requires
            !(ffi_type is Reference),
        ensures
            r@ == spec_ffi_type_label(*ffi_type),
    {
        match ffi_type {
            FfiType::Int8 => "int8_t".to_owned(),
            FfiType::UInt8 => "uint8_t".to_owned(),
            FfiType::Int16 => "int16_t".to_owned(),
            FfiType::UInt16 => "uint16_t".to_owned(),
            FfiType::Int32 => "int32_t".to_owned(),
            FfiType::UInt32 => "uint32_t".to_owned(),
            FfiType::Int64 => "int64_t".to_owned(),
            FfiType::UInt64 => "uint64_t".to_owned(),
            FfiType::Float32 => "float".to_owned(),
            FfiType::Float64 => "double".to_owned(),
            FfiType::RustArcPtr(_) => "void*".to_owned(),
            FfiType::Handle => "uint64_t".to_owned(),
            FfiType::VoidPointer => "void*".to_owned(),
            FfiType::RustBuffer(_) => "RustBuffer".to_owned(),
            FfiType::ForeignBytes => "ForeignBytes".to_owned(),
            FfiType::RustCallStatus => "RustCallStatus".to_owned(),
            FfiType::Callback(nm) => self.ffi_callback_name(nm.as_str()),
            FfiType::Struct(nm) => self.ffi_struct_name(nm.as_str()),
            FfiType::Reference(_) => unreached(),
        }
    }

    /// Get the idiomatic C rendering of an FFI callback function name.
    pub fn ffi_callback_name(&self, nm: &str) -> (r: String)
        ensures
            r@ == spec_ffi_callback_name(nm@),
    {
        concat("Uniffi", to_upper_camel_case(nm).as_str())
    }

    /// Get the idiomatic C rendering of an FFI struct name.
    pub fn ffi_struct_name(&self, nm: &str) -> (r: String)
        ensures
            r@ == spec_ffi_struct_name(nm@),
    {
        concat("Uniffi", to_upper_camel_case(nm).as_str())
    }
}

/// The handler of an interface type: what knows how the type is written in Go.
///
/// There is one kind of handler for every kind of interface type. A handler is
/// made on demand from the type's own data and holds the types it is built from
/// by value.
#[derive(Debug)]
pub enum CodeType {
    Primitive(PrimitiveCodeType),
    Timestamp(TimestampCodeType),
    Duration(DurationCodeType),
    Optional(OptionalCodeType),
    Sequence(SequenceCodeType),
    Mapping(MapCodeType),
    Record(RecordCodeType),
    Enum(EnumCodeType),
    Object(ObjectCodeType),
    CallbackInterface(CallbackInterfaceCodeType),
    Custom(CustomCodeType),
    External(ExternalCodeType),
    ForeignExecutor(ForeignExecutorCodeType),
}

/// How deep optionals, sequences and maps are nested in a type.
pub open spec fn type_height(t: Type) -> nat
    decreases t,
{
    match t {
        Type::Optional { inner_type } => 1 + type_height(*inner_type),
        Type::Sequence { inner_type } => 1 + type_height(*inner_type),
        Type::Mapping { key_type, value_type } => 1 + type_height(*key_type) + type_height(
            *value_type,
        ),
        _ => 0,
    }
}

/// The handler of each interface type.
pub open spec fn spec_create_code_type(t: Type) -> CodeType {
    match t {
        Type::UInt8 => CodeType::Primitive(PrimitiveCodeType { kind: Primitive::UInt8 }),
        Type::Int8 => CodeType::Primitive(PrimitiveCodeType { kind: Primitive::Int8 }),
        Type::UInt16 => CodeType::Primitive(PrimitiveCodeType { kind: Primitive::UInt16 }),
        Type::Int16 => CodeType::Primitive(PrimitiveCodeType { kind: Primitive::Int16 }),
        Type::UInt32 => CodeType::Primitive(PrimitiveCodeType { kind: Primitive::UInt32 }),
        Type::Int32 => CodeType::Primitive(PrimitiveCodeType { kind: Primitive::Int32 }),
        Type::UInt64 => CodeType::Primitive(PrimitiveCodeType { kind: Primitive::UInt64 }),
        Type::Int64 => CodeType::Primitive(PrimitiveCodeType { kind: Primitive::Int64 }),
        Type::Float32 => CodeType::Primitive(PrimitiveCodeType { kind: Primitive::Float32 }),
        Type::Float64 => CodeType::Primitive(PrimitiveCodeType { kind: Primitive::Float64 }),
        Type::Boolean => CodeType::Primitive(PrimitiveCodeType { kind: Primitive::Boolean }),
        Type::String => CodeType::Primitive(PrimitiveCodeType { kind: Primitive::String }),
        Type::Bytes => CodeType::Primitive(PrimitiveCodeType { kind: Primitive::Bytes }),
        Type::Duration => CodeType::Duration(DurationCodeType),
        Type::Mapping { key_type, value_type } => CodeType::Mapping(
            MapCodeType { key: *key_type, value: *value_type },
        ),
        Type::Object { name, module: _, imp } => CodeType::Object(ObjectCodeType { id: name, imp }),
        Type::Optional { inner_type } => CodeType::Optional(OptionalCodeType { inner: *inner_type }),
        Type::Record { name, .. } => CodeType::Record(RecordCodeType { name }),
        Type::Sequence { inner_type } => CodeType::Sequence(SequenceCodeType { inner: *inner_type }),
        Type::Timestamp => CodeType::Timestamp(TimestampCodeType),
        Type::Custom { name, .. } => CodeType::Custom(CustomCodeType { name }),
        Type::Enum { name, .. } => CodeType::Enum(EnumCodeType { name }),
        Type::CallbackInterface { name, .. } => CodeType::CallbackInterface(
            CallbackInterfaceCodeType { id: name },
        ),
        Type::External { name, module, kind, namespace, tagged } => CodeType::External(
            ExternalCodeType { name, module, kind, namespace, tagged },
        ),
        Type::ForeignExecutor => CodeType::ForeignExecutor(ForeignExecutorCodeType),
    }
}

/// The label of a type: how Go code refers to it in signatures and declarations.
pub open spec fn type_label_of(t: Type, ci: &ComponentInterface) -> Seq<char>
    decreases t,
{
    match t {
        Type::Optional { inner_type } => "*"@ + type_label_of(*inner_type, ci),
        Type::Sequence { inner_type } => "[]"@ + type_label_of(*inner_type, ci),
        Type::Mapping { key_type, value_type } => "map["@ + type_label_of(*key_type, ci) + "]"@
            + type_label_of(*value_type, ci),
        _ => spec_create_code_type(t).leaf_type_label(ci),
    }
}

/// The canonical name of a type: what stands for the type inside other identifiers.
pub open spec fn canonical_name_of(t: Type) -> Seq<char>
    decreases t,
{
    match t {
        Type::Optional { inner_type } => "Optional"@ + canonical_name_of(*inner_type),
        Type::Sequence { inner_type } => "Sequence"@ + canonical_name_of(*inner_type),
        Type::Mapping { key_type, value_type } => "Map"@ + canonical_name_of(*key_type)
            + canonical_name_of(*value_type),
        _ => spec_create_code_type(t).leaf_canonical_name(),
    }
}

/// Whether the constant has a Go text as a value of the type. Primitives, enums
/// and optionals have constants; no other type has.
pub open spec fn has_literal(t: Type, literal: Literal) -> bool
    decreases t,
{
    match t {
        Type::Optional { inner_type } => literal is Null || has_literal(*inner_type, literal),
        _ => spec_create_code_type(t).leaf_has_literal(literal),
    }
}

/// The Go text of a constant as a value of the type.
pub open spec fn literal_of(t: Type, literal: Literal, ci: &ComponentInterface) -> Seq<char>
    decreases t,
{
    match t {
        Type::Optional { inner_type } => if literal is Null {
            "nil"@
        } else {
            literal_of(*inner_type, literal, ci)
        },
        _ => spec_create_code_type(t).leaf_literal(literal, ci),
    }
}

impl CodeType {
    /// The height of the types that the handler holds, and one more.
    pub open spec fn height(&self) -> nat {
        match self {
            CodeType::Optional(h) => 1 + type_height(h.inner),
            CodeType::Sequence(h) => 1 + type_height(h.inner),
            CodeType::Mapping(h) => 1 + type_height(h.key) + type_height(h.value),
            _ => 0,
        }
    }

    /// The label of a handler that holds no other type.
    pub open spec fn leaf_type_label(&self, ci: &ComponentInterface) -> Seq<char> {
        match self {
            CodeType::Primitive(h) => h.spec_type_label(),
            CodeType::Timestamp(h) => h.spec_type_label(),
            CodeType::Duration(h) => h.spec_type_label(),
            CodeType::Record(h) => h.spec_type_label(),
            CodeType::Enum(h) => h.spec_type_label(ci),
            CodeType::Object(h) => h.spec_type_label(),
            CodeType::CallbackInterface(h) => h.spec_type_label(),
            CodeType::Custom(h) => h.spec_type_label(),
            CodeType::External(h) => h.spec_type_label(),
            CodeType::ForeignExecutor(h) => h.spec_type_label(),
            _ => Seq::empty(),
        }
    }

    pub open spec fn spec_type_label(&self, ci: &ComponentInterface) -> Seq<char> {
        match self {
            CodeType::Optional(h) => h.spec_type_label(ci),
            CodeType::Sequence(h) => h.spec_type_label(ci),
            CodeType::Mapping(h) => h.spec_type_label(ci),
            _ => self.leaf_type_label(ci),
        }
    }

    /// The language specific label used to reference this type. This will be used in
    /// method signatures and property declarations.
    pub fn type_label(&self, ci: &ComponentInterface) -> (r: String)
        ensures
            r@ == self.spec_type_label(ci),
        decreases self.height(), 1nat,
    {
        match self {
            CodeType::Primitive(h) => h.type_label(),
            CodeType::Timestamp(h) => h.type_label(),
            CodeType::Duration(h) => h.type_label(),
            CodeType::Optional(h) => h.type_label(ci),
            CodeType::Sequence(h) => h.type_label(ci),
            CodeType::Mapping(h) => h.type_label(ci),
            CodeType::Record(h) => h.type_label(),
            CodeType::Enum(h) => h.type_label(ci),
            CodeType::Object(h) => h.type_label(),
            CodeType::CallbackInterface(h) => h.type_label(),
            CodeType::Custom(h) => h.type_label(),
            CodeType::External(h) => h.type_label(),
            CodeType::ForeignExecutor(h) => h.type_label(),
        }
    }

    /// The canonical name of a handler that holds no other type.
    pub open spec fn leaf_canonical_name(&self) -> Seq<char> {
        match self {
            CodeType::Primitive(h) => h.spec_canonical_name(),
            CodeType::Timestamp(h) => h.spec_canonical_name(),
            CodeType::Duration(h) => h.spec_canonical_name(),
            CodeType::Record(h) => h.spec_canonical_name(),
            CodeType::Enum(h) => h.spec_canonical_name(),
            CodeType::Object(h) => h.spec_canonical_name(),
            CodeType::CallbackInterface(h) => h.spec_canonical_name(),
            CodeType::Custom(h) => h.spec_canonical_name(),
            CodeType::External(h) => h.spec_canonical_name(),
            CodeType::ForeignExecutor(h) => h.spec_canonical_name(),
            _ => Seq::empty(),
        }
    }

    pub open spec fn spec_canonical_name(&self) -> Seq<char> {
        match self {
            CodeType::Optional(h) => h.spec_canonical_name(),
            CodeType::Sequence(h) => h.spec_canonical_name(),
            CodeType::Mapping(h) => h.spec_canonical_name(),
            _ => self.leaf_canonical_name(),
        }
    }

    /// A representation of this type label that can be used as part of another
    /// identifier. e.g. `read_foo()`, or `FooInternals`.
    ///
    /// This is especially useful when creating specialized objects or methods to deal
    /// with this type only.
    pub fn canonical_name(&self) -> (r: String)
        ensures
            r@ == self.spec_canonical_name(),
        decreases self.height(), 1nat,
    {
        match self {
            CodeType::Primitive(h) => h.canonical_name(),
            CodeType::Timestamp(h) => h.canonical_name(),
            CodeType::Duration(h) => h.canonical_name(),
            CodeType::Optional(h) => h.canonical_name(),
            CodeType::Sequence(h) => h.canonical_name(),
            CodeType::Mapping(h) => h.canonical_name(),
            CodeType::Record(h) => h.canonical_name(),
            CodeType::Enum(h) => h.canonical_name(),
            CodeType::Object(h) => h.canonical_name(),
            CodeType::CallbackInterface(h) => h.canonical_name(),
            CodeType::Custom(h) => h.canonical_name(),
            CodeType::External(h) => h.canonical_name(),
            CodeType::ForeignExecutor(h) => h.canonical_name(),
        }
    }

    /// Whether a handler that holds no other type has a text for the constant.
    pub open spec fn leaf_has_literal(&self, literal: Literal) -> bool {
        match self {
            CodeType::Primitive(_) => literal_renders(literal),
            CodeType::Enum(h) => h.spec_has_literal(literal),
            _ => false,
        }
    }

    /// Whether the handler has a Go text for the constant.
    pub open spec fn spec_has_literal(&self, literal: Literal) -> bool {
        match self {
            CodeType::Optional(h) => h.spec_has_literal(literal),
            _ => self.leaf_has_literal(literal),
        }
    }

    /// The text that a handler that holds no other type has for the constant.
    pub open spec fn leaf_literal(&self, literal: Literal, ci: &ComponentInterface) -> Seq<char> {
        match self {
            CodeType::Primitive(_) => spec_render_literal(literal),
            CodeType::Enum(h) => h.spec_literal(literal, ci),
            _ => Seq::empty(),
        }
    }

    pub open spec fn spec_literal(&self, literal: Literal, ci: &ComponentInterface) -> Seq<char> {
        match self {
            CodeType::Optional(h) => h.spec_literal(literal, ci),
            _ => self.leaf_literal(literal, ci),
        }
    }

    /// Whether `literal` may be handed to [`CodeType::literal`].
    pub fn accepts_literal(&self, literal: &Literal) -> (r: bool)
        ensures
            r == self.spec_has_literal(*literal),
        decreases self.height(),
    {
        match self {
            CodeType::Primitive(_) => primitives::renders(literal),
            CodeType::Enum(_) => match literal {
                Literal::Enum(_, _) => true,
                _ => false,
            },
            CodeType::Optional(h) => match literal {
                Literal::Null => true,
                _ => {
                    let inner = GoCodeOracle.find(&h.inner);
                    proof {
                        lemma_resolved_height(h.inner);
                        lemma_resolved_has_literal(h.inner, *literal);
                    }
                    inner.accepts_literal(literal)
                },
            },
            _ => false,
        }
    }

    /// The Go text of a constant of this type.
    ///
    /// Only primitives, enums and optionals have constants, and each only the
    /// constants that fit it.
    pub fn literal(&self, literal: &Literal, ci: &ComponentInterface) -> (r: String)
        requires
            self.spec_has_literal(*literal),
        ensures
            r@ == self.spec_literal(*literal, ci),
        decreases self.height(), 2nat,
    {
        match self {
            CodeType::Primitive(h) => h.literal(literal),
            CodeType::Optional(h) => h.literal(literal, ci),
            CodeType::Enum(h) => h.literal(literal, ci),
            _ => unreached(),
        }
    }

    /// Name of the FfiConverter
    ///
    /// This is the object that contains the lower, write, lift, and read methods for this type.
    pub open spec fn spec_ffi_converter_name(&self) -> Seq<char> {
        match self {
            CodeType::External(h) => h.spec_ffi_converter_name(),
            _ => converter_name(self.spec_canonical_name()),
        }
    }

    pub fn ffi_converter_name(&self) -> (r: String)
        ensures
            r@ == self.spec_ffi_converter_name(),
    {
        match self {
            CodeType::External(h) => h.ffi_converter_name(),
            _ => name_converter(self.canonical_name().as_str()),
        }
    }

    pub open spec fn spec_ffi_converter_instance(&self) -> Seq<char> {
        converter_instance(self.spec_ffi_converter_name())
    }

    pub fn ffi_converter_instance(&self) -> (r: String)
        ensures
            r@ == self.spec_ffi_converter_instance(),
    {
        name_instance(self.ffi_converter_name().as_str())
    }

    pub open spec fn spec_ffi_destroyer_name(&self) -> Seq<char> {
        match self {
            CodeType::External(h) => h.spec_ffi_destroyer_name(),
            _ => destroyer_name(self.spec_canonical_name()),
        }
    }

    pub fn ffi_destroyer_name(&self) -> (r: String)
        ensures
            r@ == self.spec_ffi_destroyer_name(),
    {
        match self {
            CodeType::External(h) => h.ffi_destroyer_name(),
            _ => name_destroyer(self.canonical_name().as_str()),
        }
    }

    /// An expression for lowering a value into something we can pass over the FFI.
    pub fn lower(&self) -> (r: String)
        ensures
            r@ == lower_expr(self.spec_ffi_converter_instance()),
    {
        concat(self.ffi_converter_instance().as_str(), ".Lower")
    }

    /// An expression for writing a value into a byte buffer.
    pub fn write(&self) -> (r: String)
        ensures
            r@ == write_expr(self.spec_ffi_converter_instance()),
    {
        concat(self.ffi_converter_instance().as_str(), ".Write")
    }

    /// An expression for lifting a value from something we received over the FFI.
    pub fn lift(&self) -> (r: String)
        ensures
            r@ == lift_expr(self.spec_ffi_converter_instance()),
    {
        concat(self.ffi_converter_instance().as_str(), ".Lift")
    }

    /// An expression for reading a value from a byte buffer.
    pub fn read(&self) -> (r: String)
        ensures
            r@ == read_expr(self.spec_ffi_converter_instance()),
    {
        concat(self.ffi_converter_instance().as_str(), ".Read")
    }

    /// An expression to destroy this type.
    pub fn destroy(&self) -> (r: String)
        ensures
            r@ == destroy_expr(self.spec_ffi_destroyer_name()),
    {
        concat(self.ffi_destroyer_name().as_str(), "{}.Destroy")
    }

    /// A list of imports that are needed if this type is in use.
    /// No handler asks for one: the templates add the imports they need.
    pub fn imports(&self) -> (r: Option<Vec<String>>)
        ensures
            r is None,
    {
        None
    }

    /// The function to run at startup for this type, if it needs one.
    pub open spec fn spec_initialization_fn(&self) -> Option<Seq<char>> {
        match self {
            CodeType::Object(h) => h.spec_initialization_fn(),
            CodeType::CallbackInterface(h) => h.spec_initialization_fn(),
            CodeType::ForeignExecutor(h) => h.spec_initialization_fn(),
            _ => None,
        }
    }

    /// Function to run at startup
    pub fn initialization_fn(&self) -> (r: Option<String>)
        ensures
            r is Some <==> self.spec_initialization_fn() is Some,
            r is Some ==> r->0@ == self.spec_initialization_fn()->0,
    {
        match self {
            CodeType::Object(h) => h.initialization_fn(),
            CodeType::CallbackInterface(h) => h.initialization_fn(),
            CodeType::ForeignExecutor(h) => h.initialization_fn(),
            _ => None,
        }
    }
}

/// The handler made for a type is as high as the type.
pub proof fn lemma_resolved_height(t: Type)
    ensures
        spec_create_code_type(t).height() == type_height(t),
{
}

/// The handler made for a type gives the type's label.
pub proof fn lemma_resolved_type_label(t: Type, ci: &ComponentInterface)
    ensures
        spec_create_code_type(t).spec_type_label(ci) == type_label_of(t, ci),
{
}

/// The handler made for a type gives the type's canonical name.
pub proof fn lemma_resolved_canonical_name(t: Type)
    ensures
        spec_create_code_type(t).spec_canonical_name() == canonical_name_of(t),
{
}

/// The handler made for a type has the type's constants.
pub proof fn lemma_resolved_has_literal(t: Type, literal: Literal)
    ensures
        spec_create_code_type(t).spec_has_literal(literal) == has_literal(t, literal),
{
}

/// The handler made for a type has the type's text for a constant.
pub proof fn lemma_resolved_literal(t: Type, literal: Literal, ci: &ComponentInterface)
    ensures
        spec_create_code_type(t).spec_literal(literal, ci) == literal_of(t, literal, ci),
{
}

/// Two different names that Go would know by one class name.
pub open spec fn class_names_collide(a: Seq<char>, b: Seq<char>) -> bool {
    a != b && spec_class_name(a) == spec_class_name(b)
}

impl GoCodeOracle {
    /// Looks for two names of an interface that collide once they are class
    /// names, and gives the places of the pair that ends first. Bindings for an
    /// interface with such a pair would declare one Go type twice, so the
    /// generator has to give up on it.
    pub fn find_class_name_collision(&self, names: &Vec<String>) -> (r: Option<(usize, usize)>)
        ensures
            match r {
                Some((i, j)) => {
                    &&& i < j < names@.len()
                    &&& class_names_collide(names@[i as int]@, names@[j as int]@)
                    &&& forall|a: int, b: int|
                        0 <= a < b < j ==> !class_names_collide(
                            #[trigger] names@[a]@,
                            #[trigger] names@[b]@,
                        )
                    &&& forall|a: int|
                        0 <= a < i ==> !class_names_collide(#[trigger] names@[a]@, names@[j as int]@)
                },
                None => forall|i: int, j: int|
                    0 <= i < j < names@.len() ==> !class_names_collide(
                        #[trigger] names@[i]@,
                        #[trigger] names@[j]@,
                    ),
            },
    {
        let mut class_names: Vec<String> = Vec::new();
        let mut k: usize = 0;
        while k < names.len()
            invariant
                k <= names@.len(),
                class_names@.len() == k,
                forall|i: int|
                    0 <= i < k ==> (#[trigger] class_names@[i])@ == spec_class_name(names@[i]@),
            decreases names@.len() - k,
        {
            class_names.push(self.class_name(names[k].as_str()));
            k += 1;
        }
        let mut j: usize = 0;
        while j < names.len()
            invariant
                j <= names@.len(),
                class_names@.len() == names@.len(),
                forall|i: int|
                    0 <= i < names@.len() ==> (#[trigger] class_names@[i])@ == spec_class_name(
                        names@[i]@,
                    ),
                forall|a: int, b: int|
                    0 <= a < b < j ==> !class_names_collide(
                        #[trigger] names@[a]@,
                        #[trigger] names@[b]@,
                    ),
            decreases names@.len() - j,
        {
            let mut i: usize = 0;
            while i < j
                invariant
                    i <= j < names@.len(),
                    class_names@.len() == names@.len(),
                    forall|a: int|
                        0 <= a < names@.len() ==> (#[trigger] class_names@[a])@ == spec_class_name(
                            names@[a]@,
                        ),
                    forall|a: int|
                        0 <= a < i ==> !class_names_collide(#[trigger] names@[a]@, names@[j as int]@),
                    forall|a: int, b: int|
                        0 <= a < b < j ==> !class_names_collide(
                            #[trigger] names@[a]@,
                            #[trigger] names@[b]@,
                        ),
                decreases j - i,
            {
                if names[i] != names[j] && class_names[i] == class_names[j] {
                    return Some((i, j));
                }
                i += 1;
            }
            j += 1;
        }
        None
    }

    /// Makes the handler of a type.
    ///
    /// The match is over every kind of interface type: a type without a handler
    /// does not compile.
    pub fn create_code_type(&self, type_: Type) -> (r: CodeType)
        ensures
            r == spec_create_code_type(type_),
    {
        match type_ {
            Type::UInt8 => CodeType::Primitive(PrimitiveCodeType::new(Primitive::UInt8)),
            Type::Int8 => CodeType::Primitive(PrimitiveCodeType::new(Primitive::Int8)),
            Type::UInt16 => CodeType::Primitive(PrimitiveCodeType::new(Primitive::UInt16)),
            Type::Int16 => CodeType::Primitive(PrimitiveCodeType::new(Primitive::Int16)),
            Type::UInt32 => CodeType::Primitive(PrimitiveCodeType::new(Primitive::UInt32)),
            Type::Int32 => CodeType::Primitive(PrimitiveCodeType::new(Primitive::Int32)),
            Type::UInt64 => CodeType::Primitive(PrimitiveCodeType::new(Primitive::UInt64)),
            Type::Int64 => CodeType::Primitive(PrimitiveCodeType::new(Primitive::Int64)),
            Type::Float32 => CodeType::Primitive(PrimitiveCodeType::new(Primitive::Float32)),
            Type::Float64 => CodeType::Primitive(PrimitiveCodeType::new(Primitive::Float64)),
            Type::Boolean => CodeType::Primitive(PrimitiveCodeType::new(Primitive::Boolean)),
            Type::String => CodeType::Primitive(PrimitiveCodeType::new(Primitive::String)),
            Type::Bytes => CodeType::Primitive(PrimitiveCodeType::new(Primitive::Bytes)),
            Type::Duration => CodeType::Duration(DurationCodeType),
            Type::Mapping { key_type, value_type } => CodeType::Mapping(
                MapCodeType::new(*key_type, *value_type),
            ),
            Type::Object { name, module: _, imp } => CodeType::Object(ObjectCodeType::new(name, imp)),
            Type::Optional { inner_type } => CodeType::Optional(OptionalCodeType::new(*inner_type)),
            Type::Record { name, .. } => CodeType::Record(RecordCodeType::new(name)),
            Type::Sequence { inner_type } => CodeType::Sequence(SequenceCodeType::new(*inner_type)),
            Type::Timestamp => CodeType::Timestamp(TimestampCodeType),
            Type::Custom { name, .. } => CodeType::Custom(CustomCodeType::new(name)),
            Type::Enum { name, .. } => CodeType::Enum(EnumCodeType::new(name)),
            Type::CallbackInterface { name, .. } => CodeType::CallbackInterface(
                CallbackInterfaceCodeType::new(name),
            ),
            Type::External { name, module, kind, namespace, tagged } => CodeType::External(
                ExternalCodeType::new(name, module, kind, namespace, tagged),
            ),
            Type::ForeignExecutor => CodeType::ForeignExecutor(ForeignExecutorCodeType),
        }
    }

    /// The handler of a type that the caller keeps.
    pub fn find(&self, type_: &Type) -> (r: CodeType)
        ensures
            r == spec_create_code_type(*type_),
    {
        self.create_code_type(type_.clone())
    }
}

/// The label of an object type is its class name where foreign code can
/// implement the object, and the class name behind `*` where it cannot. The
/// canonical name, and with it every name derived from it, is the same either
/// way.
pub proof fn lemma_object_type_label(
    module: String,
    name: String,
    imp: interface::ObjectImpl,
    other: interface::ObjectImpl,
    ci: &ComponentInterface,
)
    ensures
        type_label_of(Type::Object { module, name, imp }, ci) == (if imp.spec_has_callback_interface() {
            spec_class_name(name@)
        } else {
            "*"@ + spec_class_name(name@)
        }),
        canonical_name_of(Type::Object { module, name, imp }) == canonical_name_of(
            Type::Object { module, name, imp: other },
        ),
        spec_create_code_type(Type::Object { module, name, imp }).spec_ffi_converter_name()
            == spec_create_code_type(
            Type::Object { module, name, imp: other },
        ).spec_ffi_converter_name(),
{
}

/// The label of an enum type is a reference where the interface uses the enum
/// as an error, and the class name itself where it does not.
pub proof fn lemma_enum_type_label(module: String, name: String, ci: &ComponentInterface)
    ensures
        type_label_of(Type::Enum { module, name }, ci) == (if ci.spec_is_name_used_as_error(name@) {
            "*"@ + spec_class_name(name@)
        } else {
            spec_class_name(name@)
        }),
{
}

/// The types that have constants: the primitives, the enums and the optionals.
pub open spec fn has_constants(t: Type) -> bool {
    t is UInt8 || t is Int8 || t is UInt16 || t is Int16 || t is UInt32 || t is Int32 || t is UInt64
        || t is Int64 || t is Float32 || t is Float64 || t is Boolean || t is String || t is Bytes
        || t is Enum || t is Optional
}

/// A type of any other kind has no constant at all: whatever the literal, the
/// type's handler has no text for it, so that nothing can ask it for one. That
/// holds of records, objects, callback interfaces, sequences, maps, timestamps,
/// durations, custom and external types and the executor.
pub proof fn lemma_types_without_constants(t: Type, literal: Literal)
    requires
        !has_constants(t),
    ensures
        !has_literal(t, literal),
        !spec_create_code_type(t).spec_has_literal(literal),
{
}

/// The types whose canonical name can be empty: an enum or an object whose
/// name has no letter or digit in it, and an external type without a name.
pub open spec fn has_blank_name(t: Type) -> bool {
    match t {
        Type::Enum { name, .. } => spec_class_name(name@).len() == 0,
        Type::Object { name, .. } => spec_class_name(name@).len() == 0,
        Type::External { name, .. } => name@.len() == 0,
        _ => false,
    }
}

/// The canonical name of a type is empty only where the type's own name gives
/// nothing to build it from.
pub proof fn lemma_canonical_name_nonempty(t: Type)
    ensures
        canonical_name_of(t).len() == 0 <==> has_blank_name(t),
{
    reveal_strlit("Optional");
    reveal_strlit("Sequence");
    reveal_strlit("Map");
    reveal_strlit("Type");
    reveal_strlit("CallbackInterface");
    reveal_strlit("ForeignExecutor");
    reveal_strlit("Timestamp");
    reveal_strlit("Duration");
    reveal_strlit("Bytes");
    reveal_strlit("bool");
    reveal_strlit("string");
    reveal_strlit("int8");
    reveal_strlit("int16");
    reveal_strlit("int32");
    reveal_strlit("int64");
    reveal_strlit("uint8");
    reveal_strlit("uint16");
    reveal_strlit("uint32");
    reveal_strlit("uint64");
    reveal_strlit("float32");
    reveal_strlit("float64");
}

/// No reserved word begins with the prefix that escapes one.
pub proof fn lemma_prefixed_is_no_keyword(nm: Seq<char>)
    ensures
        !is_keyword("var_"@ + nm),
{
    reveal_strlit("var_");
    reveal_strlit("break");
    reveal_strlit("case");
    reveal_strlit("chan");
    reveal_strlit("const");
    reveal_strlit("continue");
    reveal_strlit("default");
    reveal_strlit("defer");
    reveal_strlit("else");
    reveal_strlit("fallthrough");
    reveal_strlit("for");
    reveal_strlit("func");
    reveal_strlit("go");
    reveal_strlit("goto");
    reveal_strlit("if");
    reveal_strlit("import");
    reveal_strlit("interface");
    reveal_strlit("map");
    reveal_strlit("package");
    reveal_strlit("range");
    reveal_strlit("return");
    reveal_strlit("select");
    reveal_strlit("struct");
    reveal_strlit("switch");
    reveal_strlit("type");
    reveal_strlit("var");
    let s = "var_"@ + nm;
    assert(s.len() >= 4);
    assert(s[3] == '_');
}

/// A reserved word is always rendered from its escaped form, an escaped name
/// is never a reserved word, and neither is the rendering of any name. The
/// rendering is the escaped name in lower camel case wherever that is no
/// reserved word.
pub proof fn lemma_keyword_escaped(nm: Seq<char>)
    ensures
        is_keyword(nm) ==> escape_keyword(nm) == "var_"@ + nm,
        is_keyword(nm) ==> escaped_and_folded(nm) == lower_camel_case("var_"@ + nm),
        !is_keyword(escaped_and_folded(nm)) ==> spec_var_name(nm) == escaped_and_folded(nm),
        !is_keyword(escape_keyword(nm)),
        !is_keyword(spec_var_name(nm)),
{
    lemma_prefixed_is_no_keyword(nm);
    lemma_prefixed_is_no_keyword(escaped_and_folded(escaped_and_folded(nm)));
}

/// Escaping keeps names apart: two different names have the same escaped form
/// only where one is a reserved word and the other is that word with the
/// prefix already on it.
pub proof fn lemma_escape_collisions(a: Seq<char>, b: Seq<char>)
    requires
        a != b,
        escape_keyword(a) == escape_keyword(b),
    ensures
        (is_keyword(a) && b == "var_"@ + a) || (is_keyword(b) && a == "var_"@ + b),
{
    if is_keyword(a) && is_keyword(b) {
        self::converter::lemma_same_prefix("var_"@, a, b);
    }
}

} // verus!
