//! The scalar types, strings and byte strings, and the constants of those types.

use vstd::prelude::*;

use super::interface::{Literal, Radix, Type};
use super::numerals::{
    absolute, digits, go_integer_value, lemma_digits_round_trip, lemma_sign_round_trip,
    lemma_unsigned_round_trip, magnitude, render_digits, signed, with_sign,
};
use super::quoting::{go_string_value, lemma_string_round_trip, quote, quoted};
use super::text::{concat, concat3};

verus! {

/// The interface types that Go has a builtin type for.
#[derive(Debug, Copy, PartialEq, Eq)]
pub enum Primitive {
    Boolean,
    String,
    Bytes,
    Int8,
    Int16,
    Int32,
    Int64,
    UInt8,
    UInt16,
    UInt32,
    UInt64,
    Float32,
    Float64,
}

impl Clone for Primitive {
    fn clone(&self) -> (r: Self)
        ensures
            r == *self,
    {
        *self
    }
}

/// The handler of a primitive type.
#[derive(Debug)]
pub struct PrimitiveCodeType {
    pub kind: Primitive,
}

impl PrimitiveCodeType {
    pub fn new(kind: Primitive) -> (r: Self)
        ensures
            r.kind == kind,
    {
        Self { kind }
    }

    /// The Go type of each primitive.
    pub open spec fn spec_type_label(&self) -> Seq<char> {
        match self.kind {
            Primitive::Boolean => "bool"@,
            Primitive::String => "string"@,
            Primitive::Bytes => "[]byte"@,
            Primitive::Int8 => "int8"@,
            Primitive::Int16 => "int16"@,
            Primitive::Int32 => "int32"@,
            Primitive::Int64 => "int64"@,
            Primitive::UInt8 => "uint8"@,
            Primitive::UInt16 => "uint16"@,
            Primitive::UInt32 => "uint32"@,
            Primitive::UInt64 => "uint64"@,
            Primitive::Float32 => "float32"@,
            Primitive::Float64 => "float64"@,
        }
    }

    pub fn type_label(&self) -> (r: String)
        ensures
            r@ == self.spec_type_label(),
    {
        match self.kind {
            Primitive::Boolean => "bool".to_owned(),
            Primitive::String => "string".to_owned(),
            Primitive::Bytes => "[]byte".to_owned(),
            Primitive::Int8 => "int8".to_owned(),
            Primitive::Int16 => "int16".to_owned(),
            Primitive::Int32 => "int32".to_owned(),
            Primitive::Int64 => "int64".to_owned(),
            Primitive::UInt8 => "uint8".to_owned(),
            Primitive::UInt16 => "uint16".to_owned(),
            Primitive::UInt32 => "uint32".to_owned(),
            Primitive::UInt64 => "uint64".to_owned(),
            Primitive::Float32 => "float32".to_owned(),
            Primitive::Float64 => "float64".to_owned(),
        }
    }

    /// A primitive is known by its Go type, except for the byte string, whose Go
    /// type is no identifier.
    pub open spec fn spec_canonical_name(&self) -> Seq<char> {
        match self.kind {
            Primitive::Bytes => "Bytes"@,
            _ => self.spec_type_label(),
        }
    }

    pub fn canonical_name(&self) -> (r: String)
        ensures
            r@ == self.spec_canonical_name(),
    {
        match self.kind {
            Primitive::Bytes => "Bytes".to_owned(),
            _ => self.type_label(),
        }
    }

    /// The Go text of a constant. The constant says itself which type it has.
    pub fn literal(&self, literal: &Literal) -> (r: String)
        requires
            literal_renders(*literal),
        ensures
            r@ == spec_render_literal(*literal),
    {
        render_literal(literal)
    }
}

/// The types a numeric constant can have.
pub open spec fn is_number_type(t: Type) -> bool {
    t is Int8 || t is UInt8 || t is Int16 || t is UInt16 || t is Int32 || t is UInt32 || t is Int64
        || t is UInt64 || t is Float32 || t is Float64
}

/// The name of the conversion that gives a numeric constant its type.
pub open spec fn number_type_name(t: Type) -> Seq<char> {
    match t {
        Type::Int8 => "Int8"@,
        Type::UInt8 => "UInt8"@,
        Type::Int16 => "Int16"@,
        Type::UInt16 => "UInt16"@,
        Type::UInt32 => "UInt32"@,
        Type::Int64 => "Int64"@,
        Type::UInt64 => "UInt64"@,
        Type::Float32 => "Float32"@,
        Type::Float64 => "Float64"@,
        _ => Seq::empty(),
    }
}

/// A number with its type: bare for `Int32`, which an untyped constant has anyway,
/// and inside a conversion for every other numeric type.
pub open spec fn spec_typed_number(t: Type, num: Seq<char>) -> Seq<char> {
    if t is Int32 {
        num
    } else {
        number_type_name(t) + "("@ + num + ")"@
    }
}

/// A number without a sign in the radix it was written in: octal behind `0o`,
/// hexadecimal behind `0x`, decimal as it is.
pub open spec fn magnitude_text(n: nat, radix: Radix) -> Seq<char> {
    match radix {
        Radix::Octal => "0o"@ + digits(n, 8),
        Radix::Decimal => digits(n, 10),
        Radix::Hexadecimal => "0x"@ + digits(n, 16),
    }
}

/// An unsigned integer in the radix it was written in.
pub open spec fn unsigned_text(v: u64, radix: Radix) -> Seq<char> {
    magnitude_text(v as nat, radix)
}

/// A signed integer in the radix it was written in: a negative number is a
/// minus sign before its magnitude, in every radix.
pub open spec fn signed_text(v: i64, radix: Radix) -> Seq<char> {
    with_sign(v as int, magnitude_text(magnitude(v as int), radix))
}

/// The constants that have a Go text as a primitive: booleans, strings, and
/// numbers of a numeric type.
pub open spec fn literal_renders(literal: Literal) -> bool {
    match literal {
        Literal::Boolean(_) => true,
        Literal::String(_) => true,
        Literal::Int(_, _, t) => is_number_type(t),
        Literal::UInt(_, _, t) => is_number_type(t),
        Literal::Float(_, t) => is_number_type(t),
        _ => false,
    }
}

/// The Go text of a constant of a primitive type.
pub open spec fn spec_render_literal(literal: Literal) -> Seq<char> {
    match literal {
        Literal::Boolean(v) => if v {
            "true"@
        } else {
            "false"@
        },
        Literal::String(s) => quoted(s@),
        Literal::Int(i, radix, t) => spec_typed_number(t, signed_text(i, radix)),
        Literal::UInt(i, radix, t) => spec_typed_number(t, unsigned_text(i, radix)),
        Literal::Float(s, t) => spec_typed_number(t, s@),
        _ => Seq::empty(),
    }
}

fn conversion(name: &str, num_str: &str) -> (r: String)
    ensures
        r@ == name@ + "("@ + num_str@ + ")"@,
{
    let mut s = concat3(name, "(", num_str);
    s.append(")");
    s
}

fn typed_number(type_: &Type, num_str: String) -> (r: String)
    requires
        is_number_type(*type_),
    ensures
        r@ == spec_typed_number(*type_, num_str@),
{
    match type_ {
        Type::Int32 => num_str,
        Type::Int8 => conversion("Int8", num_str.as_str()),
        Type::UInt8 => conversion("UInt8", num_str.as_str()),
        Type::Int16 => conversion("Int16", num_str.as_str()),
        Type::UInt16 => conversion("UInt16", num_str.as_str()),
        Type::UInt32 => conversion("UInt32", num_str.as_str()),
        Type::Int64 => conversion("Int64", num_str.as_str()),
        Type::UInt64 => conversion("UInt64", num_str.as_str()),
        Type::Float32 => conversion("Float32", num_str.as_str()),
        Type::Float64 => conversion("Float64", num_str.as_str()),
        _ => unreached(),
    }
}

/// Whether `type_` is one of the types a numeric constant can have.
pub fn number_type(type_: &Type) -> (r: bool)
    ensures
        r == is_number_type(*type_),
{
    match type_ {
        Type::Int8 | Type::UInt8 | Type::Int16 | Type::UInt16 | Type::Int32 | Type::UInt32
        | Type::Int64 | Type::UInt64 | Type::Float32 | Type::Float64 => true,
        _ => false,
    }
}

/// Whether `render_literal` has a text for the constant.
pub fn renders(literal: &Literal) -> (r: bool)
    ensures
        r == literal_renders(*literal),
{
    match literal {
        Literal::Boolean(_) => true,
        Literal::String(_) => true,
        Literal::Int(_, _, t) => number_type(t),
        Literal::UInt(_, _, t) => number_type(t),
        Literal::Float(_, t) => number_type(t),
        _ => false,
    }
}

/// Writes a number without a sign in the radix it was written in.
pub fn render_magnitude(n: u64, radix: &Radix) -> (r: String)
    ensures
        r@ == magnitude_text(n as nat, *radix),
{
    match radix {
        Radix::Octal => concat("0o", render_digits(n, 8).as_str()),
        Radix::Decimal => render_digits(n, 10),
        Radix::Hexadecimal => concat("0x", render_digits(n, 16).as_str()),
    }
}

/// Renders a constant of a primitive type as Go source text.
pub fn render_literal(literal: &Literal) -> (r: String)
    requires
        literal_renders(*literal),
    ensures
        r@ == spec_render_literal(*literal),
{
    match literal {
        Literal::Boolean(v) => if *v {
            "true".to_owned()
        } else {
            "false".to_owned()
        },
        Literal::String(s) => quote(s.as_str()),
        Literal::Int(i, radix, type_) => typed_number(
            type_,
            signed(*i, render_magnitude(absolute(*i), radix)),
        ),
        Literal::UInt(i, radix, type_) => typed_number(type_, render_magnitude(*i, radix)),
        Literal::Float(string, type_) => typed_number(type_, string.clone()),
        _ => unreached(),
    }
}

/// The number inside the text of a typed number: the text itself for `Int32`,
/// and what stands between the parentheses of the conversion otherwise.
pub open spec fn number_inside(text: Seq<char>, t: Type) -> Seq<char> {
    if t is Int32 {
        text
    } else {
        text.subrange(number_type_name(t).len() as int + 1, text.len() - 1)
    }
}

/// A typed number holds the number it was made from.
pub proof fn lemma_typed_number_holds(t: Type, num: Seq<char>)
    requires
        is_number_type(t),
    ensures
        number_inside(spec_typed_number(t, num), t) == num,
{
    reveal_strlit("(");
    reveal_strlit(")");
    if !(t is Int32) {
        let name = number_type_name(t);
        let text = name + "("@ + num + ")"@;
        assert(text.subrange(name.len() as int + 1, text.len() - 1) =~= num);
    }
}

/// Go reads from the text of a magnitude the magnitude, in every radix, and the
/// text does not begin with a sign.
pub proof fn lemma_magnitude_round_trip(n: nat, radix: Radix)
    ensures
        go_integer_value(magnitude_text(n, radix)) == n,
        magnitude_text(n, radix).len() >= 1,
        magnitude_text(n, radix)[0] != '-',
{
    lemma_unsigned_round_trip(n);
    lemma_digits_round_trip(n, 10);
}

/// An unsigned constant reads back as its value, whatever the radix and the
/// numeric type it was written with.
pub proof fn lemma_unsigned_literal_round_trip(v: u64, radix: Radix, t: Type)
    requires
        is_number_type(t),
    ensures
        go_integer_value(number_inside(spec_render_literal(Literal::UInt(v, radix, t)), t)) == v,
{
    lemma_typed_number_holds(t, unsigned_text(v, radix));
    lemma_magnitude_round_trip(v as nat, radix);
}

/// A signed constant reads back as its value, sign and all, whatever the radix
/// and the numeric type it was written with.
pub proof fn lemma_signed_literal_round_trip(v: i64, radix: Radix, t: Type)
    requires
        is_number_type(t),
    ensures
        go_integer_value(number_inside(spec_render_literal(Literal::Int(v, radix, t)), t)) == v,
{
    lemma_typed_number_holds(t, signed_text(v, radix));
    let n = magnitude(v as int);
    lemma_magnitude_round_trip(n, radix);
    lemma_sign_round_trip(v as int, magnitude_text(n, radix));
}

/// A floating-point constant holds the text it was written as.
pub proof fn lemma_float_literal_holds(s: String, t: Type)
    requires
        is_number_type(t),
    ensures
        number_inside(spec_render_literal(Literal::Float(s, t)), t) == s@,
{
    lemma_typed_number_holds(t, s@);
}

/// The two boolean constants differ, and a string constant reads back as its
/// string, whatever characters it holds.
pub proof fn lemma_plain_literal_round_trip(a: bool, b: bool, s: String)
    ensures
        spec_render_literal(Literal::Boolean(a)) == spec_render_literal(Literal::Boolean(b)) ==> a
            == b,
        go_string_value(spec_render_literal(Literal::String(s))) == s@,
{
    reveal_strlit("true");
    reveal_strlit("false");
    assert("true"@.len() == 4);
    assert("false"@.len() == 5);
    lemma_string_round_trip(s@);
}

} // verus!
