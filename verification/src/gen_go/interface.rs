//! The component interface as the generator reads it: interface types, their
//! FFI shapes, constant values and the definitions that carry vtables.

use vstd::prelude::*;

verus! {

/// How an object is implemented on the native side.
#[derive(Debug, Copy, PartialEq, Eq)]
pub enum ObjectImpl {
    /// A single native type.
    Struct,
    /// A trait that native types implement.
    Trait,
    /// A trait together with a callback interface, so that foreign types can implement it too.
    CallbackTrait,
}

impl Clone for ObjectImpl {
    fn clone(&self) -> (r: Self)
        ensures
            r == *self,
    {
        *self
    }
}

impl ObjectImpl {
    pub open spec fn spec_has_callback_interface(self) -> bool {
        self is CallbackTrait
    }

    /// Whether foreign code can implement the object.
    #[verifier::when_used_as_spec(spec_has_callback_interface)]
    pub fn has_callback_interface(self) -> (r: bool)
        ensures
            r == self.spec_has_callback_interface(),
    {
        match self {
            ObjectImpl::CallbackTrait => true,
            _ => false,
        }
    }
}

/// What kind of definition an externally defined type is.
#[derive(Debug, Copy, PartialEq, Eq)]
pub enum ExternalKind {
    Interface,
    Trait,
    /// A record or an enum.
    DataClass,
}

impl Clone for ExternalKind {
    fn clone(&self) -> (r: Self)
        ensures
            r == *self,
    {
        *self
    }
}

/// A type occurring anywhere in a component interface.
///
/// Records, enums, objects and callback interfaces are referred to by name, so a
/// value of this type is a finite tree.
#[derive(Debug, PartialEq, Eq)]
pub enum Type {
    UInt8,
    Int8,
    UInt16,
    Int16,
    UInt32,
    Int32,
    UInt64,
    Int64,
    Float32,
    Float64,
    Boolean,
    String,
    Bytes,
    Timestamp,
    Duration,
    Object { module: String, name: String, imp: ObjectImpl },
    Record { module: String, name: String },
    Enum { module: String, name: String },
    CallbackInterface { module: String, name: String },
    Optional { inner_type: Box<Type> },
    Sequence { inner_type: Box<Type> },
    Mapping { key_type: Box<Type>, value_type: Box<Type> },
    /// A type whose converter lives in another generated module.
    External { module: String, name: String, namespace: String, kind: ExternalKind, tagged: bool },
    /// A named type that travels as one of the builtin types.
    Custom { module: String, name: String, builtin: Box<Type> },
    /// The opaque handle through which native code schedules foreign work.
    ForeignExecutor,
}

impl Clone for Type {
    fn clone(&self) -> (r: Self)
        ensures
            r == *self,
        decreases *self,
    {
        match self {
            Type::UInt8 => Type::UInt8,
            Type::Int8 => Type::Int8,
            Type::UInt16 => Type::UInt16,
            Type::Int16 => Type::Int16,
            Type::UInt32 => Type::UInt32,
            Type::Int32 => Type::Int32,
            Type::UInt64 => Type::UInt64,
            Type::Int64 => Type::Int64,
            Type::Float32 => Type::Float32,
            Type::Float64 => Type::Float64,
            Type::Boolean => Type::Boolean,
            Type::String => Type::String,
            Type::Bytes => Type::Bytes,
            Type::Timestamp => Type::Timestamp,
            Type::Duration => Type::Duration,
            Type::Object { module, name, imp } => Type::Object {
                module: module.clone(),
                name: name.clone(),
                imp: *imp,
            },
            Type::Record { module, name } => Type::Record {
                module: module.clone(),
                name: name.clone(),
            },
            Type::Enum { module, name } => Type::Enum {
                module: module.clone(),
                name: name.clone(),
            },
            Type::CallbackInterface { module, name } => Type::CallbackInterface {
                module: module.clone(),
                name: name.clone(),
            },
            Type::Optional { inner_type } => Type::Optional {
                inner_type: Box::new((**inner_type).clone()),
            },
            Type::Sequence { inner_type } => Type::Sequence {
                inner_type: Box::new((**inner_type).clone()),
            },
            Type::Mapping { key_type, value_type } => Type::Mapping {
                key_type: Box::new((**key_type).clone()),
                value_type: Box::new((**value_type).clone()),
            },
            Type::External { module, name, namespace, kind, tagged } => Type::External {
                module: module.clone(),
                name: name.clone(),
                namespace: namespace.clone(),
                kind: *kind,
                tagged: *tagged,
            },
            Type::Custom { module, name, builtin } => Type::Custom {
                module: module.clone(),
                name: name.clone(),
                builtin: Box::new((**builtin).clone()),
            },
            Type::ForeignExecutor => Type::ForeignExecutor,
        }
    }
}

/// What the bindings need to find the buffer type of an externally defined type.
#[derive(Debug, PartialEq, Eq)]
pub struct ExternalFfiMetadata {
    pub name: String,
    pub module: String,
    pub namespace: String,
}

impl Clone for ExternalFfiMetadata {
    fn clone(&self) -> (r: Self)
        ensures
            r == *self,
    {
        ExternalFfiMetadata {
            name: self.name.clone(),
            module: self.module.clone(),
            namespace: self.namespace.clone(),
        }
    }
}

/// The low-level shapes that cross the C ABI.
#[derive(Debug, PartialEq, Eq)]
pub enum FfiType {
    UInt8,
    Int8,
    UInt16,
    Int16,
    UInt32,
    Int32,
    UInt64,
    Int64,
    Float32,
    Float64,
    /// A pointer to a reference-counted native object; the string names the object's type.
    RustArcPtr(String),
    /// A length-prefixed byte buffer allocated by native code.
    RustBuffer(Option<ExternalFfiMetadata>),
    /// A borrowed view of bytes owned by foreign code.
    ForeignBytes,
    /// A pointer to a callback function, by the name of its definition.
    Callback(String),
    /// An FFI struct such as a vtable, by the name of its definition.
    Struct(String),
    /// An opaque 64-bit handle.
    Handle,
    RustCallStatus,
    /// A pointer to another shape.
    Reference(Box<FfiType>),
    /// An opaque pointer.
    VoidPointer,
}

impl Clone for FfiType {
    fn clone(&self) -> (r: Self)
        ensures
            r == *self,
        decreases *self,
    {
        match self {
            FfiType::UInt8 => FfiType::UInt8,
            FfiType::Int8 => FfiType::Int8,
            FfiType::UInt16 => FfiType::UInt16,
            FfiType::Int16 => FfiType::Int16,
            FfiType::UInt32 => FfiType::UInt32,
            FfiType::Int32 => FfiType::Int32,
            FfiType::UInt64 => FfiType::UInt64,
            FfiType::Int64 => FfiType::Int64,
            FfiType::Float32 => FfiType::Float32,
            FfiType::Float64 => FfiType::Float64,
            FfiType::RustArcPtr(name) => FfiType::RustArcPtr(name.clone()),
            FfiType::RustBuffer(meta) => match meta {
                Some(m) => FfiType::RustBuffer(Some(m.clone())),
                None => FfiType::RustBuffer(None),
            },
            FfiType::ForeignBytes => FfiType::ForeignBytes,
            FfiType::Callback(name) => FfiType::Callback(name.clone()),
            FfiType::Struct(name) => FfiType::Struct(name.clone()),
            FfiType::Handle => FfiType::Handle,
            FfiType::RustCallStatus => FfiType::RustCallStatus,
            FfiType::Reference(inner) => FfiType::Reference(Box::new((**inner).clone())),
            FfiType::VoidPointer => FfiType::VoidPointer,
        }
    }
}

/// The shape in which a value of each interface type crosses the C ABI.
///
/// Numbers travel as themselves and a boolean as a byte. Objects travel as a
/// pointer, callback interfaces and the executor as a 64-bit handle. Every other
/// type is serialised into a byte buffer; a custom type travels as the builtin
/// type behind it.
pub open spec fn ffi_type_of(t: Type) -> FfiType
    decreases t,
{
    match t {
        Type::UInt8 => FfiType::UInt8,
        Type::Int8 => FfiType::Int8,
        Type::UInt16 => FfiType::UInt16,
        Type::Int16 => FfiType::Int16,
        Type::UInt32 => FfiType::UInt32,
        Type::Int32 => FfiType::Int32,
        Type::UInt64 => FfiType::UInt64,
        Type::Int64 => FfiType::Int64,
        Type::Float32 => FfiType::Float32,
        Type::Float64 => FfiType::Float64,
        Type::Boolean => FfiType::Int8,
        Type::String => FfiType::RustBuffer(None),
        Type::Bytes => FfiType::RustBuffer(None),
        Type::Object { name, .. } => FfiType::RustArcPtr(name),
        Type::CallbackInterface { .. } => FfiType::UInt64,
        Type::ForeignExecutor => FfiType::Handle,
        Type::Enum { .. } => FfiType::RustBuffer(None),
        Type::Record { .. } => FfiType::RustBuffer(None),
        Type::Optional { .. } => FfiType::RustBuffer(None),
        Type::Sequence { .. } => FfiType::RustBuffer(None),
        Type::Mapping { .. } => FfiType::RustBuffer(None),
        Type::Timestamp => FfiType::RustBuffer(None),
        Type::Duration => FfiType::RustBuffer(None),
        Type::External { name, kind, module, namespace, .. } => match kind {
            ExternalKind::Interface => FfiType::RustArcPtr(name),
            ExternalKind::Trait => FfiType::RustArcPtr(name),
            ExternalKind::DataClass => FfiType::RustBuffer(
                Some(ExternalFfiMetadata { name, module, namespace }),
            ),
        },
        Type::Custom { builtin, .. } => ffi_type_of(*builtin),
    }
}

/// The shapes that interface types are lowered to: numbers, pointers to objects,
/// buffers and handles. Callbacks, structs and references occur in the
/// signatures of FFI functions only.
pub open spec fn is_value_shape(t: FfiType) -> bool {
    !(t is Reference) && !(t is Callback) && !(t is Struct) && !(t is ForeignBytes) && !(t
        is RustCallStatus) && !(t is VoidPointer)
}

/// Every interface type is lowered to one of the shapes for values.
pub proof fn lemma_lowered_shape(t: Type)
    ensures
        is_value_shape(ffi_type_of(t)),
    decreases t,
{
    match t {
        Type::Custom { builtin, .. } => lemma_lowered_shape(*builtin),
        _ => {},
    }
}

impl FfiType {
    /// The shape in which a value of `type_` crosses the C ABI.
    pub fn for_type(type_: &Type) -> (r: FfiType)
        ensures
            r == ffi_type_of(*type_),
        decreases *type_,
    {
        match type_ {
            // Types that are the same map to themselves, naturally.
            Type::UInt8 => FfiType::UInt8,
            Type::Int8 => FfiType::Int8,
            Type::UInt16 => FfiType::UInt16,
            Type::Int16 => FfiType::Int16,
            Type::UInt32 => FfiType::UInt32,
            Type::Int32 => FfiType::Int32,
            Type::UInt64 => FfiType::UInt64,
            Type::Int64 => FfiType::Int64,
            Type::Float32 => FfiType::Float32,
            Type::Float64 => FfiType::Float64,
            // There are no booleans at this layer.
            Type::Boolean => FfiType::Int8,
            // Strings and byte strings are always owned native values.
            Type::String => FfiType::RustBuffer(None),
            Type::Bytes => FfiType::RustBuffer(None),
            // Objects are pointers to a reference-counted value.
            Type::Object { name, .. } => FfiType::RustArcPtr(name.clone()),
            // Callback interfaces are passed as opaque integer handles.
            Type::CallbackInterface { .. } => FfiType::UInt64,
            Type::ForeignExecutor => FfiType::Handle,
            // Other types are serialized into a bytebuffer and deserialized on the other side.
            Type::Enum { .. }
            | Type::Record { .. }
            | Type::Optional { .. }
            | Type::Sequence { .. }
            | Type::Mapping { .. }
            | Type::Timestamp
            | Type::Duration => FfiType::RustBuffer(None),
            Type::External { name, kind, module, namespace, .. } => match kind {
                ExternalKind::Interface => FfiType::RustArcPtr(name.clone()),
                ExternalKind::Trait => FfiType::RustArcPtr(name.clone()),
                ExternalKind::DataClass => FfiType::RustBuffer(
                    Some(
                        ExternalFfiMetadata {
                            name: name.clone(),
                            module: module.clone(),
                            namespace: namespace.clone(),
                        },
                    ),
                ),
            },
            Type::Custom { builtin, .. } => FfiType::for_type(&**builtin),
        }
    }

    /// A pointer to this shape.
    pub fn reference(self) -> (r: FfiType)
        ensures
            r == FfiType::Reference(Box::new(self)),
    {
        FfiType::Reference(Box::new(self))
    }
}

/// The radix an integer constant was written in.
#[derive(Debug, Copy, PartialEq, Eq)]
pub enum Radix {
    Decimal,
    Octal,
    Hexadecimal,
}

impl Clone for Radix {
    fn clone(&self) -> (r: Self)
        ensures
            r == *self,
    {
        *self
    }
}

/// A constant value, as it appears for a default argument or field.
#[derive(Debug, PartialEq, Eq)]
pub enum Literal {
    Boolean(bool),
    String(String),
    UInt(u64, Radix, Type),
    Int(i64, Radix, Type),
    /// A floating-point constant, kept as it was written.
    Float(String, Type),
    /// An enum variant, by name.
    Enum(String, Type),
    EmptySequence,
    EmptyMap,
    /// The absent value of an optional type.
    Null,
    /// A present value of an optional type.
    NonNull { inner: Box<Literal> },
}

/// One argument of an FFI function.
#[derive(Debug, PartialEq, Eq)]
pub struct FfiArgument {
    pub name: String,
    pub type_: FfiType,
}

impl Clone for FfiArgument {
    fn clone(&self) -> (r: Self)
        ensures
            r == *self,
    {
        FfiArgument { name: self.name.clone(), type_: self.type_.clone() }
    }
}

impl FfiArgument {
    pub fn new(name: String, type_: FfiType) -> (r: Self)
        ensures
            r.name == name,
            r.type_ == type_,
    {
        FfiArgument { name, type_ }
    }
}

/// A callback function type: foreign code defines the function and hands native
/// code a pointer to it.
#[derive(Debug, PartialEq, Eq)]
pub struct FfiCallbackFunction {
    /// The name of the function type, as `FfiType::Callback` carries it.
    pub name: String,
    pub arguments: Vec<FfiArgument>,
    pub return_type: Option<FfiType>,
    pub has_rust_call_status_arg: bool,
}

/// The traits for which helper methods are generated on an object.
#[derive(Debug, Copy, PartialEq, Eq)]
pub enum UniffiTrait {
    Debug,
    Display,
    Eq,
    Hash,
}

impl Clone for UniffiTrait {
    fn clone(&self) -> (r: Self)
        ensures
            r == *self,
    {
        *self
    }
}

/// An object definition.
#[derive(Debug, PartialEq, Eq)]
pub struct Object {
    pub name: String,
    pub module: String,
    pub imp: ObjectImpl,
    /// One callback function per method, in declaration order.
    pub vtable_methods: Vec<FfiCallbackFunction>,
    pub uniffi_traits: Vec<UniffiTrait>,
}

impl Object {
    pub open spec fn spec_has_callback_interface(&self) -> bool {
        self.imp.spec_has_callback_interface()
    }

    #[verifier::when_used_as_spec(spec_has_callback_interface)]
    pub fn has_callback_interface(&self) -> (r: bool)
        ensures
            r == self.spec_has_callback_interface(),
    {
        self.imp.has_callback_interface()
    }

    /// The interface type that refers to this object.
    pub fn as_type(&self) -> (r: Type)
        ensures
            r == (Type::Object { module: self.module, name: self.name, imp: self.imp }),
    {
        Type::Object { module: self.module.clone(), name: self.name.clone(), imp: self.imp }
    }
}

/// A callback interface definition.
#[derive(Debug, PartialEq, Eq)]
pub struct CallbackInterface {
    pub name: String,
    pub module: String,
    /// One callback function per method, in declaration order.
    pub vtable_methods: Vec<FfiCallbackFunction>,
}

impl CallbackInterface {
    /// The interface type that refers to this callback interface.
    pub fn as_type(&self) -> (r: Type)
        ensures
            r == (Type::CallbackInterface { module: self.module, name: self.name }),
    {
        Type::CallbackInterface { module: self.module.clone(), name: self.name.clone() }
    }
}

/// One variant of an enum definition.
#[derive(Debug, PartialEq, Eq)]
pub struct Variant {
    pub name: String,
    /// The discriminant that the variant resolves to.
    pub discr: Literal,
}

/// An enum definition.
#[derive(Debug, PartialEq, Eq)]
pub struct Enum {
    pub name: String,
    pub module: String,
    pub variants: Vec<Variant>,
}

/// A field of a record, or of an enum variant.
#[derive(Debug, PartialEq, Eq)]
pub struct Field {
    pub name: String,
    pub type_: Type,
}

impl Field {
    pub fn as_type(&self) -> (r: Type)
        ensures
            r == self.type_,
    {
        self.type_.clone()
    }
}

/// What the generator reads of a parsed component interface.
#[derive(Debug, PartialEq, Eq)]
pub struct ComponentInterface {
    pub namespace: String,
    /// Every type the interface uses, each once.
    pub types: Vec<Type>,
    /// The names of the types that some function or method throws.
    pub errors: Vec<String>,
    pub objects: Vec<Object>,
    pub callback_interfaces: Vec<CallbackInterface>,
}

/// The names of the types of a list that are declared by name, in the order
/// of the list.
pub open spec fn declared_names_of(types: Seq<Type>) -> Seq<Seq<char>>
    decreases types.len(),
{
    if types.len() == 0 {
        Seq::empty()
    } else {
        let rest = declared_names_of(types.drop_last());
        match types.last().spec_declared_name() {
            Some(name) => rest.push(name),
            None => rest,
        }
    }
}

impl Type {
    /// The name under which the interface declares the type, for the types that
    /// it declares: objects, records, enums, callback interfaces and custom types.
    pub open spec fn spec_declared_name(self) -> Option<Seq<char>> {
        match self {
            Type::Object { name, .. } => Some(name@),
            Type::Record { name, .. } => Some(name@),
            Type::Enum { name, .. } => Some(name@),
            Type::CallbackInterface { name, .. } => Some(name@),
            Type::Custom { name, .. } => Some(name@),
            _ => None,
        }
    }

    pub fn declared_name(&self) -> (r: Option<String>)
        ensures
            r is Some <==> self.spec_declared_name() is Some,
            r is Some ==> r->0@ == self.spec_declared_name()->0,
    {
        match self {
            Type::Object { name, .. } => Some(name.clone()),
            Type::Record { name, .. } => Some(name.clone()),
            Type::Enum { name, .. } => Some(name.clone()),
            Type::CallbackInterface { name, .. } => Some(name.clone()),
            Type::Custom { name, .. } => Some(name.clone()),
            _ => None,
        }
    }
}

impl ComponentInterface {
    /// The names that the interface declares types under, in the order of its types.
    pub fn declared_names(&self) -> (r: Vec<String>)
        ensures
            Seq::new(r@.len(), |i: int| r@[i]@) == declared_names_of(self.types@),
    {
        let types = &self.types;
        let mut out: Vec<String> = Vec::new();
        let mut i: usize = 0;
        assert(types@.take(0) =~= Seq::empty());
        assert(Seq::new(out@.len(), |k: int| out@[k]@) =~= Seq::<Seq<char>>::empty());
        while i < types.len()
            invariant
                i <= types@.len(),
                Seq::new(out@.len(), |k: int| out@[k]@) == declared_names_of(types@.take(i as int)),
            decreases types@.len() - i,
        {
            proof {
                let upto = types@.take(i + 1);
                assert(upto.last() == types@[i as int]);
                assert(upto.drop_last() =~= types@.take(i as int));
            }
            let ghost before = Seq::new(out@.len(), |k: int| out@[k]@);
            match types[i].declared_name() {
                Some(name) => {
                    out.push(name);
                    assert(Seq::new(out@.len(), |k: int| out@[k]@) =~= before.push(name@));
                },
                None => {},
            }
            i += 1;
        }
        assert(types@.take(types@.len() as int) =~= types@);
        out
    }

    pub open spec fn spec_is_name_used_as_error(&self, name: Seq<char>) -> bool {
        exists|i: int| 0 <= i < self.errors@.len() && (#[trigger] self.errors@[i])@ == name
    }

    /// Whether the type called `name` is used as an error somewhere in the interface.
    pub fn is_name_used_as_error(&self, name: &str) -> (r: bool)
        ensures
            r == self.spec_is_name_used_as_error(name@),
    {
        let wanted = name.to_owned();
        let mut i: usize = 0;
        while i < self.errors.len()
            invariant
                i <= self.errors.len(),
                wanted@ == name@,
                forall|j: int| 0 <= j < i ==> (#[trigger] self.errors@[j])@ != name@,
            decreases self.errors.len() - i,
        {
            if self.errors[i] == wanted {
                return true;
            }
            i += 1;
        }
        false
    }
}

} // verus!
