//! The names of a type's converter and of its operations, all derived from the
//! type's canonical name.
//!
//! The converter of a type is the Go value that lowers, lifts, reads and writes
//! values of that type; the destroyer releases what such a value holds. Generated
//! modules refer to each other's converters by these names.

use vstd::prelude::*;

use super::text::concat;

verus! {

/// The converter's type, for a canonical name.
pub open spec fn converter_name(canonical: Seq<char>) -> Seq<char> {
    "FfiConverter"@ + canonical
}

/// The converter's one instance, for the name of its type.
pub open spec fn converter_instance(converter: Seq<char>) -> Seq<char> {
    converter + "INSTANCE"@
}

/// The destroyer's type, for a canonical name.
pub open spec fn destroyer_name(canonical: Seq<char>) -> Seq<char> {
    "FfiDestroyer"@ + canonical
}

/// The expression that lowers a value into what the FFI passes.
pub open spec fn lower_expr(instance: Seq<char>) -> Seq<char> {
    instance + ".Lower"@
}

/// The expression that writes a value into a byte buffer.
pub open spec fn write_expr(instance: Seq<char>) -> Seq<char> {
    instance + ".Write"@
}

/// The expression that lifts a value from what the FFI passed.
pub open spec fn lift_expr(instance: Seq<char>) -> Seq<char> {
    instance + ".Lift"@
}

/// The expression that reads a value from a byte buffer.
pub open spec fn read_expr(instance: Seq<char>) -> Seq<char> {
    instance + ".Read"@
}

/// The expression that destroys a value.
pub open spec fn destroy_expr(destroyer: Seq<char>) -> Seq<char> {
    destroyer + "{}.Destroy"@
}

/// The call that installs a converter when the package starts.
pub open spec fn register_expr(instance: Seq<char>) -> Seq<char> {
    instance + ".register"@
}

/// The name of the converter for a canonical name.
pub fn name_converter(canonical: &str) -> (r: String)
    ensures
        r@ == converter_name(canonical@),
{
    concat("FfiConverter", canonical)
}

/// The name of the converter instance, for the converter's name.
pub fn name_instance(converter: &str) -> (r: String)
    ensures
        r@ == converter_instance(converter@),
{
    concat(converter, "INSTANCE")
}

/// The name of the destroyer for a canonical name.
pub fn name_destroyer(canonical: &str) -> (r: String)
    ensures
        r@ == destroyer_name(canonical@),
{
    concat("FfiDestroyer", canonical)
}

/// The startup hook of the converter for a canonical name.
pub fn registration(canonical: &str) -> (r: String)
    ensures
        r@ == register_expr(converter_instance(converter_name(canonical@))),
{
    let converter = name_converter(canonical);
    let instance = name_instance(converter.as_str());
    concat(instance.as_str(), ".register")
}

/// Two sequences that begin alike and are equal end alike.
pub proof fn lemma_same_prefix(prefix: Seq<char>, a: Seq<char>, b: Seq<char>)
    requires
        prefix + a == prefix + b,
    ensures
        a == b,
{
    assert(a =~= (prefix + a).subrange(prefix.len() as int, (prefix + a).len() as int));
    assert(b =~= (prefix + b).subrange(prefix.len() as int, (prefix + b).len() as int));
}

/// Two sequences that end alike and are equal begin alike.
pub proof fn lemma_same_suffix(a: Seq<char>, b: Seq<char>, suffix: Seq<char>)
    requires
        a + suffix == b + suffix,
    ensures
        a == b,
{
    assert((a + suffix).len() == a.len() + suffix.len());
    assert((b + suffix).len() == b.len() + suffix.len());
    assert(a =~= (a + suffix).subrange(0, a.len() as int));
    assert(b =~= (b + suffix).subrange(0, b.len() as int));
}

/// Distinct canonical names have distinct converters, converter instances and
/// destroyers, and distinct expressions for every operation.
pub proof fn lemma_derived_names_distinct(a: Seq<char>, b: Seq<char>)
    requires
        a != b,
    ensures
        converter_name(a) != converter_name(b),
        converter_instance(converter_name(a)) != converter_instance(converter_name(b)),
        destroyer_name(a) != destroyer_name(b),
        lower_expr(converter_instance(converter_name(a))) != lower_expr(
            converter_instance(converter_name(b)),
        ),
        lift_expr(converter_instance(converter_name(a))) != lift_expr(
            converter_instance(converter_name(b)),
        ),
        read_expr(converter_instance(converter_name(a))) != read_expr(
            converter_instance(converter_name(b)),
        ),
        write_expr(converter_instance(converter_name(a))) != write_expr(
            converter_instance(converter_name(b)),
        ),
        destroy_expr(destroyer_name(a)) != destroy_expr(destroyer_name(b)),
{
    let ca = converter_name(a);
    let cb = converter_name(b);
    if ca == cb {
        lemma_same_prefix("FfiConverter"@, a, b);
    }
    let ia = converter_instance(ca);
    let ib = converter_instance(cb);
    if ia == ib {
        lemma_same_suffix(ca, cb, "INSTANCE"@);
    }
    if destroyer_name(a) == destroyer_name(b) {
        lemma_same_prefix("FfiDestroyer"@, a, b);
    }
    if lower_expr(ia) == lower_expr(ib) {
        lemma_same_suffix(ia, ib, ".Lower"@);
    }
    if lift_expr(ia) == lift_expr(ib) {
        lemma_same_suffix(ia, ib, ".Lift"@);
    }
    if read_expr(ia) == read_expr(ib) {
        lemma_same_suffix(ia, ib, ".Read"@);
    }
    if write_expr(ia) == write_expr(ib) {
        lemma_same_suffix(ia, ib, ".Write"@);
    }
    if destroy_expr(destroyer_name(a)) == destroy_expr(destroyer_name(b)) {
        lemma_same_suffix(destroyer_name(a), destroyer_name(b), "{}.Destroy"@);
    }
}

} // verus!
