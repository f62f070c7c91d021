//! The functions that the templates call on names and types.
//!
//! Every function here returns `Ok`: the `Result` is what the template engine
//! asks of a filter.

use vstd::prelude::*;

use super::case::{shouty_snake_case, to_shouty_snake_case};
use super::config::Config;
use super::converter::{
    destroy_expr, lemma_same_prefix, lemma_same_suffix, lift_expr, lower_expr, read_expr,
    write_expr,
};
use super::indentation::{can_indent, dedent, dedented, fits_indent, indent, indented, utf8_len};
use super::interface::{
    ffi_type_of, ComponentInterface, Enum, FfiArgument, FfiCallbackFunction, FfiType, Literal,
    Object, Type, UniffiTrait,
};
use super::numerals::{
    digits, lemma_digits_round_trip, render_digits, render_signed_decimal, signed_decimal,
};
use super::text::{concat, str_eq};
use super::{
    canonical_name_of, lemma_resolved_canonical_name, lemma_resolved_type_label,
    is_keyword, spec_cgo_callback_fn_name, spec_class_name, spec_create_code_type, spec_enum_variant_name,
    spec_ffi_callback_name, spec_ffi_struct_name, spec_ffi_type_label, spec_fn_name,
    spec_import_name, spec_object_names, spec_var_name, type_label_of, GoCodeOracle,
};

verus! {

/// The error that the template engine `askama` lets a filter return. Nothing is
/// known of its values here, and no function of this module returns one.
#[verifier::external_type_specification]
#[verifier::external_body]
pub struct ExAskamaError(askama::Error);

pub fn oracle() -> (r: &'static GoCodeOracle)
    ensures
        *r == GoCodeOracle,
{
    &GoCodeOracle
}

pub fn ffi_converter_name(type_: &Type) -> (r: Result<String, askama::Error>)
    ensures
        r is Ok,
        r->Ok_0@ == spec_create_code_type(*type_).spec_ffi_converter_name(),
{
    Ok(oracle().find(type_).ffi_converter_name())
}

pub fn ffi_converter_instance(type_: &Type) -> (r: Result<String, askama::Error>)
    ensures
        r is Ok,
        r->Ok_0@ == spec_create_code_type(*type_).spec_ffi_converter_instance(),
{
    Ok(oracle().find(type_).ffi_converter_instance())
}

pub fn ffi_destroyer_name(type_: &Type) -> (r: Result<String, askama::Error>)
    ensures
        r is Ok,
        r->Ok_0@ == spec_create_code_type(*type_).spec_ffi_destroyer_name(),
{
    Ok(oracle().find(type_).ffi_destroyer_name())
}

pub fn read_fn(type_: &Type) -> (r: Result<String, askama::Error>)
    ensures
        r is Ok,
        r->Ok_0@ == read_expr(spec_create_code_type(*type_).spec_ffi_converter_instance()),
{
    Ok(oracle().find(type_).read())
}

pub fn lift_fn(type_: &Type) -> (r: Result<String, askama::Error>)
    ensures
        r is Ok,
        r->Ok_0@ == lift_expr(spec_create_code_type(*type_).spec_ffi_converter_instance()),
{
    Ok(oracle().find(type_).lift())
}

pub fn write_fn(type_: &Type) -> (r: Result<String, askama::Error>)
    ensures
        r is Ok,
        r->Ok_0@ == write_expr(spec_create_code_type(*type_).spec_ffi_converter_instance()),
{
    Ok(oracle().find(type_).write())
}

pub fn lower_fn(type_: &Type) -> (r: Result<String, askama::Error>)
    ensures
        r is Ok,
        r->Ok_0@ == lower_expr(spec_create_code_type(*type_).spec_ffi_converter_instance()),
{
    Ok(oracle().find(type_).lower())
}

pub fn destroy_fn(type_: &Type) -> (r: Result<String, askama::Error>)
    ensures
        r is Ok,
        r->Ok_0@ == destroy_expr(spec_create_code_type(*type_).spec_ffi_destroyer_name()),
{
    Ok(oracle().find(type_).destroy())
}

pub fn var_name(nm: &str) -> (r: Result<String, askama::Error>)
    ensures
        r is Ok,
        r->Ok_0@ == spec_var_name(nm@),
        !is_keyword(r->Ok_0@),
{
    Ok(oracle().var_name(nm))
}

/// A name, or `prefix` and the position where there is none.
pub open spec fn or_positional(nm: Seq<char>, prefix: Seq<char>, pos: nat) -> Seq<char> {
    if nm.len() == 0 {
        prefix + digits(pos, 10)
    } else {
        nm
    }
}

/// A declaration always has a name, and the names made for two positions
/// differ.
pub proof fn lemma_positional_names(nm: Seq<char>, prefix: Seq<char>, i: nat, j: nat)
    ensures
        or_positional(nm, prefix, i).len() > 0,
        i != j ==> or_positional(Seq::empty(), prefix, i) != or_positional(Seq::empty(), prefix, j),
{
    lemma_digits_round_trip(i, 10);
    lemma_digits_round_trip(j, 10);
    if prefix + digits(i, 10) == prefix + digits(j, 10) {
        lemma_same_prefix(prefix, digits(i, 10), digits(j, 10));
    }
}

/// If name is empty create one based on position of a variable
pub fn or_pos_var(nm: &str, pos: &usize) -> (r: Result<String, askama::Error>)
    ensures
        r is Ok,
        r->Ok_0@ == or_positional(nm@, "var"@, *pos as nat),
{
    if nm.is_empty() {
        Ok(concat("var", render_digits(*pos as u64, 10).as_str()))
    } else {
        Ok(nm.to_owned())
    }
}

pub fn import_name(nm: &str) -> (r: Result<String, askama::Error>)
    ensures
        r is Ok,
        r->Ok_0@ == spec_import_name(nm@),
{
    Ok(oracle().import_name(nm))
}

/// The Go rendering of a struct field name.
pub open spec fn spec_field_name(nm: Seq<char>) -> Seq<char> {
    spec_class_name(nm)
}

/// Get the idiomatic Go rendering of a struct field name.
pub fn field_name(nm: &str) -> (r: Result<String, askama::Error>)
    ensures
        r is Ok,
        r->Ok_0@ == spec_field_name(nm@),
{
    Ok(oracle().class_name(nm))
}

/// The Go rendering of a field of an error. A field called `Error` would clash
/// with the method that makes the struct an error, so the field `error`, and
/// any other field whose name comes out as `Error`, gets `_` behind.
pub open spec fn spec_error_field_name(nm: Seq<char>) -> Seq<char> {
    if nm == "error"@ || spec_field_name(nm) == "Error"@ {
        "Error_"@
    } else {
        spec_field_name(nm)
    }
}

pub fn error_field_name(nm: &str) -> (r: Result<String, askama::Error>)
    ensures
        r is Ok,
        r->Ok_0@ == spec_error_field_name(nm@),
        r->Ok_0@ != "Error"@,
{
    proof {
        reveal_strlit("Error");
        reveal_strlit("Error_");
        assert("Error_"@.len() != "Error"@.len());
    }
    // Fields called 'Error' can clash with structs which implement the error
    // interface, causing a compilation error. Suffix with _ similar to reserved
    // keywords in var names.
    if str_eq(nm, "error") {
        return Ok("Error_".to_owned());
    }
    let name = oracle().class_name(nm);
    if str_eq(name.as_str(), "Error") {
        return Ok("Error_".to_owned());
    }
    Ok(name)
}

/// If name is empty create one based on position of a field
pub fn or_pos_field(nm: &str, pos: &usize) -> (r: Result<String, askama::Error>)
    ensures
        r is Ok,
        r->Ok_0@ == or_positional(nm@, "field"@, *pos as nat),
{
    if nm.is_empty() {
        Ok(concat("field", render_digits(*pos as u64, 10).as_str()))
    } else {
        Ok(nm.to_owned())
    }
}

pub fn type_label(type_: &Type, ci: &ComponentInterface) -> (r: Result<String, askama::Error>)
    ensures
        r is Ok,
        r->Ok_0@ == type_label_of(*type_, ci),
{
    proof {
        lemma_resolved_type_label(*type_, ci);
    }
    Ok(oracle().find(type_).type_label(ci))
}

pub fn canonical_name(type_: &Type) -> (r: Result<String, askama::Error>)
    ensures
        r is Ok,
        r->Ok_0@ == canonical_name_of(*type_),
{
    proof {
        lemma_resolved_canonical_name(*type_);
    }
    Ok(oracle().find(type_).canonical_name())
}

pub fn class_name(nm: &str) -> (r: Result<String, askama::Error>)
    ensures
        r is Ok,
        r->Ok_0@ == spec_class_name(nm@),
{
    Ok(oracle().class_name(nm))
}

pub fn object_names(obj: &Object) -> (r: Result<(String, String), askama::Error>)
    ensures
        r is Ok,
        (r->Ok_0.0@, r->Ok_0.1@) == spec_object_names(*obj),
{
    Ok(oracle().object_names(obj))
}

pub fn into_ffi_type(type_: &Type) -> (r: Result<FfiType, askama::Error>)
    ensures
        r is Ok,
        r->Ok_0 == ffi_type_of(*type_),
{
    Ok(FfiType::for_type(type_))
}

/// The C spelling of an FFI shape: a pointer is the shape it points to with `*`
/// behind.
pub open spec fn spec_cgo_ffi_type(t: FfiType) -> Seq<char>
    decreases t,
{
    match t {
        FfiType::Reference(inner) => spec_cgo_ffi_type(*inner) + "*"@,
        other => spec_ffi_type_label(other),
    }
}

/// FFI type representation in C code
pub fn cgo_ffi_type(type_: &FfiType) -> (r: Result<String, askama::Error>)
    ensures
        r is Ok,
        r->Ok_0@ == spec_cgo_ffi_type(*type_),
    decreases *type_,
{
    let result = match type_ {
        FfiType::Reference(inner) => match cgo_ffi_type(&**inner) {
            Ok(pointee) => concat(pointee.as_str(), "*"),
            Err(e) => return Err(e),
        },
        other => oracle().ffi_type_label(other),
    };

    Ok(result)
}

/// FFI function name to be used in as C to Go callback
pub fn cgo_callback_fn_name(f: &FfiCallbackFunction, module: &str) -> (r: Result<
    String,
    askama::Error,
>)
    ensures
        r is Ok,
        r->Ok_0@ == spec_cgo_callback_fn_name(f.name@, module@),
{
    Ok(oracle().cgo_callback_fn_name(f, module))
}

/// How Go code that imports the bridging header refers to an FFI shape. A
/// buffer goes by the interface that the buffers of all packages implement.
pub open spec fn spec_ffi_type_name(t: FfiType) -> Seq<char>
    decreases t,
{
    match t {
        FfiType::RustArcPtr(_) => "unsafe.Pointer"@,
        FfiType::RustBuffer(_) => "RustBufferI"@,
        FfiType::VoidPointer => "*C.void"@,
        FfiType::Reference(inner) => "*"@ + spec_ffi_type_name(*inner),
        other => "C."@ + spec_ffi_type_label(other),
    }
}

/// FFI type name to be used to reference cgo types
pub fn ffi_type_name(type_: &FfiType) -> (r: Result<String, askama::Error>)
    ensures
        r is Ok,
        r->Ok_0@ == spec_ffi_type_name(*type_),
    decreases *type_,
{
    let result = match type_ {
        FfiType::RustArcPtr(_) => "unsafe.Pointer".to_owned(),
        FfiType::RustBuffer(_) => "RustBufferI".to_owned(),
        FfiType::VoidPointer => "*C.void".to_owned(),
        FfiType::Reference(inner) => match ffi_type_name(&**inner) {
            Ok(pointee) => concat("*", pointee.as_str()),
            Err(e) => return Err(e),
        },
        other => concat("C.", oracle().ffi_type_label(other).as_str()),
    };
    Ok(result)
}

/// How an exported dispatcher refers to an FFI shape, so that its signature is
/// the one native code calls. A buffer goes by this package's own struct.
pub open spec fn spec_ffi_type_name_cgo_safe(t: FfiType) -> Seq<char>
    decreases t,
{
    match t {
        FfiType::RustArcPtr(_) => "unsafe.Pointer"@,
        FfiType::RustBuffer(_) => "RustBuffer"@,
        FfiType::VoidPointer => "*C.void"@,
        FfiType::Reference(inner) => "*"@ + spec_ffi_type_name_cgo_safe(*inner),
        other => "C."@ + spec_ffi_type_label(other),
    }
}

/// FFI type name to be used to reference cgo types. Such that they exactly match to the cgo bindings and can be used with `//export`.
pub fn ffi_type_name_cgo_safe(type_: &FfiType) -> (r: Result<String, askama::Error>)
    ensures
        r is Ok,
        r->Ok_0@ == spec_ffi_type_name_cgo_safe(*type_),
    decreases *type_,
{
    let result = match type_ {
        FfiType::RustArcPtr(_) => "unsafe.Pointer".to_owned(),
        FfiType::RustBuffer(_) => "RustBuffer".to_owned(),
        FfiType::VoidPointer => "*C.void".to_owned(),
        FfiType::Reference(inner) => match ffi_type_name_cgo_safe(&**inner) {
            Ok(pointee) => concat("*", pointee.as_str()),
            Err(e) => return Err(e),
        },
        other => concat("C.", oracle().ffi_type_label(other).as_str()),
    };
    Ok(result)
}

/// Whether a shape is a buffer, or a pointer that leads to one.
pub open spec fn leads_to_buffer(t: FfiType) -> bool
    decreases t,
{
    match t {
        FfiType::RustBuffer(_) => true,
        FfiType::Reference(inner) => leads_to_buffer(*inner),
        _ => false,
    }
}

/// The name of a shape in Go code that imports the header and its name in an
/// exported dispatcher differ for buffers, and for nothing else.
pub proof fn lemma_cgo_safe_differs_for_buffers(t: FfiType)
    ensures
        spec_ffi_type_name(t) != spec_ffi_type_name_cgo_safe(t) <==> leads_to_buffer(t),
    decreases t,
{
    match t {
        FfiType::RustBuffer(_) => {
            reveal_strlit("RustBufferI");
            reveal_strlit("RustBuffer");
            assert("RustBufferI"@.len() != "RustBuffer"@.len());
        },
        FfiType::Reference(inner) => {
            lemma_cgo_safe_differs_for_buffers(*inner);
            if spec_ffi_type_name(t) == spec_ffi_type_name_cgo_safe(t) {
                lemma_same_prefix(
                    "*"@,
                    spec_ffi_type_name(*inner),
                    spec_ffi_type_name_cgo_safe(*inner),
                );
            }
        },
        _ => {},
    }
}

/// Get the idiomatic Go rendering of a function name.
pub fn fn_name(nm: &str) -> (r: Result<String, askama::Error>)
    ensures
        r is Ok,
        r->Ok_0@ == spec_fn_name(nm@),
{
    Ok(oracle().fn_name(nm))
}

/// Get the idiomatic Go rendering of an enum variant name.
pub fn enum_variant_name(nm: &str) -> (r: Result<String, askama::Error>)
    ensures
        r is Ok,
        r->Ok_0@ == spec_enum_variant_name(nm@),
{
    Ok(oracle().enum_variant_name(nm))
}

/// The discriminants that can be written down: the integers.
pub open spec fn is_integer_literal(literal: Literal) -> bool {
    literal is UInt || literal is Int
}

/// An integer discriminant in decimal.
pub open spec fn spec_discr_literal(literal: Literal) -> Seq<char> {
    match literal {
        Literal::UInt(v, _, _) => digits(v as nat, 10),
        Literal::Int(v, _, _) => signed_decimal(v as int),
        _ => Seq::empty(),
    }
}

/// Get the Go rendering of an individual enum variant's discriminant
pub fn variant_discr_literal(e: &Enum, index: &usize) -> (r: Result<String, askama::Error>)
    requires
        *index < e.variants@.len(),
        is_integer_literal(e.variants@[*index as int].discr),
    ensures
        r is Ok,
        r->Ok_0@ == spec_discr_literal(e.variants@[*index as int].discr),
{
    match &e.variants[*index].discr {
        Literal::UInt(v, _, _) => Ok(render_digits(*v, 10)),
        Literal::Int(v, _, _) => Ok(render_signed_decimal(*v)),
        _ => unreached(),
    }
}

/// The name of the C preprocessor guard around an FFI definition.
pub open spec fn spec_if_guard_name(nm: Seq<char>) -> Seq<char> {
    "UNIFFI_FFIDEF_"@ + shouty_snake_case(nm)
}

/// Get the idiomatic C rendering of an if guard name
pub fn if_guard_name(nm: &str) -> (r: Result<String, askama::Error>)
    ensures
        r is Ok,
        r->Ok_0@ == spec_if_guard_name(nm@),
{
    Ok(concat("UNIFFI_FFIDEF_", to_shouty_snake_case(nm).as_str()))
}

/// Get the idiomatic C rendering of an FFI callback function name
pub fn ffi_callback_name(nm: &str) -> (r: Result<String, askama::Error>)
    ensures
        r is Ok,
        r->Ok_0@ == spec_ffi_callback_name(nm@),
{
    Ok(oracle().ffi_callback_name(nm))
}

/// The name of the C function through which Go calls a C callback.
pub open spec fn spec_ffi_callback_helper_name(nm: Seq<char>) -> Seq<char> {
    "call_"@ + spec_ffi_callback_name(nm)
}

/// Get the idiomatic C rendering of an FFI callback function helper name
/// This is used to call C callbacks from go
pub fn ffi_callback_helper_name(nm: &str) -> (r: Result<String, askama::Error>)
    ensures
        r is Ok,
        r->Ok_0@ == spec_ffi_callback_helper_name(nm@),
{
    Ok(concat("call_", oracle().ffi_callback_name(nm).as_str()))
}

/// The name of the first callback among the arguments, if there is one.
pub open spec fn first_callback(args: Seq<FfiArgument>) -> Option<Seq<char>>
    decreases args.len(),
{
    if args.len() == 0 {
        None
    } else {
        match args[0].type_ {
            FfiType::Callback(name) => Some(name@),
            _ => first_callback(args.drop_first()),
        }
    }
}

/// Find C callback argument in cb and return name for helper function to call it
///
/// Must be called on the callback of an async trait method, which is sure to
/// take the callback that completes the future.
pub fn find_ffi_callback_helper(cb: &FfiCallbackFunction) -> (r: Result<String, askama::Error>)
    requires
        first_callback(cb.arguments@) is Some,
    ensures
        r is Ok,
        r->Ok_0@ == "C."@ + spec_ffi_callback_helper_name(first_callback(cb.arguments@)->0),
{
    let mut i: usize = 0;
    assert(cb.arguments@.skip(0) =~= cb.arguments@);
    while i < cb.arguments.len()
        invariant
            i <= cb.arguments@.len(),
            first_callback(cb.arguments@) == first_callback(cb.arguments@.skip(i as int)),
            first_callback(cb.arguments@) is Some,
        decreases cb.arguments@.len() - i,
    {
        let ghost rest = cb.arguments@.skip(i as int);
        assert(rest[0] == cb.arguments@[i as int]);
        assert(rest.drop_first() =~= cb.arguments@.skip(i + 1));
        match &cb.arguments[i].type_ {
            FfiType::Callback(name) => {
                let helper = concat("call_", oracle().ffi_callback_name(name.as_str()).as_str());
                return Ok(concat("C.", helper.as_str()));
            },
            _ => {},
        }
        i += 1;
    }
    unreached()
}

/// Get the idiomatic C rendering of an FFI struct name
pub fn ffi_struct_name(nm: &str) -> (r: Result<String, askama::Error>)
    ensures
        r is Ok,
        r->Ok_0@ == spec_ffi_struct_name(nm@),
{
    Ok(oracle().ffi_struct_name(nm))
}

/// Whether the object has a method to be shown by.
pub open spec fn spec_has_display(obj: Object) -> bool {
    exists|i: int| 0 <= i < obj.uniffi_traits@.len() && #[trigger] obj.uniffi_traits@[i] is Display
}

pub fn has_display(obj: &Object) -> (r: Result<bool, askama::Error>)
    ensures
        r is Ok,
        r->Ok_0 == spec_has_display(*obj),
{
    let mut i: usize = 0;
    while i < obj.uniffi_traits.len()
        invariant
            i <= obj.uniffi_traits@.len(),
            forall|j: int| 0 <= j < i ==> !(#[trigger] obj.uniffi_traits@[j] is Display),
        decreases obj.uniffi_traits@.len() - i,
    {
        match obj.uniffi_traits[i] {
            UniffiTrait::Display => {
                return Ok(true);
            },
            _ => {},
        }
        i += 1;
    }
    Ok(false)
}

/// A docstring as a Go comment: dedented, with `// ` before each line.
pub open spec fn comment_text(docstring: Seq<char>) -> Seq<char> {
    indented(dedented(docstring), "// "@)
}

/// The number of tabs asked for, where a negative number asks for none.
pub open spec fn tab_count(tabs: i32) -> nat {
    if tabs < 0 {
        0
    } else {
        tabs as nat
    }
}

/// A run of `n` tabs.
pub open spec fn tab_run(n: nat) -> Seq<char> {
    Seq::new(n, |i: int| '\t')
}

/// A docstring as a Go comment at a depth of `tabs` tabs.
pub open spec fn spec_docstring(docstring: Seq<char>, tabs: i32) -> Seq<char> {
    indented(comment_text(docstring), tab_run(tab_count(tabs)))
}

/// Whether a docstring is short enough to be made a comment: both what is left
/// of it when dedented and the comment made of that can be indented.
pub open spec fn docstring_fits(docstring: Seq<char>) -> bool {
    fits_indent(utf8_len(dedented(docstring))) && fits_indent(utf8_len(comment_text(docstring)))
}

/// A run of `n` tabs.
pub fn tabs_prefix(n: usize) -> (r: String)
    ensures
        r@ == tab_run(n as nat),
{
    let mut s = String::new();
    let mut i: usize = 0;
    assert(s@ =~= tab_run(0));
    while i < n
        invariant
            i <= n,
            s@ == tab_run(i as nat),
        decreases n - i,
    {
        proof {
            reveal_strlit("\t");
            assert(tab_run(i as nat) + "\t"@ =~= tab_run((i + 1) as nat));
        }
        s.append("\t");
        i += 1;
    }
    s
}

/// Get the idiomatic Go rendering of docstring
pub fn docstring(text: &str, tabs: &i32) -> (r: Result<String, askama::Error>)
    requires
        docstring_fits(text@),
    ensures
        r is Ok,
        r->Ok_0@ == spec_docstring(text@, *tabs),
{
    let comment = indent(dedent(text).as_str(), "// ");

    let tabs: usize = if *tabs < 0 {
        0
    } else {
        *tabs as usize
    };
    Ok(indent(comment.as_str(), tabs_prefix(tabs).as_str()))
}

/// The Go rendering of a docstring, where the docstring is short enough to
/// have one.
pub fn docstring_if_fits(text: &str, tabs: &i32) -> (r: Option<String>)
    ensures
        r is Some <==> docstring_fits(text@),
        r is Some ==> r->0@ == spec_docstring(text@, *tabs),
{
    let plain = dedent(text);
    if !can_indent(plain.as_str()) {
        return None;
    }
    let comment = indent(plain.as_str(), "// ");
    if !can_indent(comment.as_str()) {
        return None;
    }
    match docstring(text, tabs) {
        Ok(s) => Some(s),
        Err(_) => None,
    }
}

/// The symbol of the exported function that native code calls to go on with a
/// pending future. It carries the package's name, as all packages of a
/// process share one table of symbols.
pub open spec fn spec_future_continuation_name(package_name: Seq<char>) -> Seq<char> {
    package_name + "_uniffiFutureContinuationCallback"@
}

/// The symbols of two packages differ: a package's name can be read off its
/// symbols.
pub proof fn lemma_async_symbols_distinct(a: Seq<char>, b: Seq<char>)
    requires
        a != b,
    ensures
        spec_future_continuation_name(a) != spec_future_continuation_name(b),
        spec_free_gorutine_callback(a) != spec_free_gorutine_callback(b),
{
    if spec_future_continuation_name(a) == spec_future_continuation_name(b) {
        lemma_same_suffix(a, b, "_uniffiFutureContinuationCallback"@);
    }
    if spec_free_gorutine_callback(a) == spec_free_gorutine_callback(b) {
        lemma_same_suffix(a, b, "_uniffiFreeGorutine"@);
    }
}

/// Exported go function consume rust poll continuation
pub fn future_continuation_name(config: &Config) -> (r: Result<String, askama::Error>)
    requires
        config.package_name is Some,
    ensures
        r is Ok,
        r->Ok_0@ == spec_future_continuation_name(config.package_name->0@),
{
    match &config.package_name {
        Some(name) => Ok(concat(name.as_str(), "_uniffiFutureContinuationCallback")),
        None => unreached(),
    }
}

/// The symbol of the exported function that native code calls to drop an
/// async callback.
pub open spec fn spec_free_gorutine_callback(package_name: Seq<char>) -> Seq<char> {
    package_name + "_uniffiFreeGorutine"@
}

/// Exported go function to "free"/"cancel" async callback
pub fn free_gorutine_callback(config: &Config) -> (r: Result<String, askama::Error>)
    requires
        config.package_name is Some,
    ensures
        r is Ok,
        r->Ok_0@ == spec_free_gorutine_callback(config.package_name->0@),
{
    match &config.package_name {
        Some(name) => Ok(concat(name.as_str(), "_uniffiFreeGorutine")),
        None => unreached(),
    }
}

} // verus!
