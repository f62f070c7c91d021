//! Enums, and the enums that double as errors.

use vstd::prelude::*;

use super::interface::{ComponentInterface, Literal};
use super::text::{concat, concat3};
use super::{spec_class_name, spec_enum_variant_name, GoCodeOracle};

verus! {

/// The handler of an enum.
#[derive(Debug)]
pub struct EnumCodeType {
    pub name: String,
}

impl EnumCodeType {
    pub fn new(name: String) -> (r: Self)
        ensures
            r.name == name,
    {
        Self { name }
    }

    /// An enum is a value type, unless the interface uses it as an error: an
    /// error travels through Go's `error` interface, and does so by reference.
    pub open spec fn spec_type_label(&self, ci: &ComponentInterface) -> Seq<char> {
        if ci.spec_is_name_used_as_error(self.name@) {
            "*"@ + self.spec_canonical_name()
        } else {
            self.spec_canonical_name()
        }
    }

    pub fn type_label(&self, ci: &ComponentInterface) -> (r: String)
        ensures
            r@ == self.spec_type_label(ci),
    {
        let name = self.canonical_name();
        if ci.is_name_used_as_error(self.name.as_str()) {
            concat("*", name.as_str())
        } else {
            name
        }
    }

    pub open spec fn spec_canonical_name(&self) -> Seq<char> {
        spec_class_name(self.name@)
    }

    pub fn canonical_name(&self) -> (r: String)
        ensures
            r@ == self.spec_canonical_name(),
    {
        GoCodeOracle.class_name(self.name.as_str())
    }

    /// Only a variant's name is a constant of an enum.
    pub open spec fn spec_has_literal(&self, literal: Literal) -> bool {
        literal is Enum
    }

    /// A variant, qualified by the enum's label.
    pub open spec fn spec_literal(&self, literal: Literal, ci: &ComponentInterface) -> Seq<char> {
        match literal {
            Literal::Enum(v, _) => self.spec_type_label(ci) + "."@ + spec_enum_variant_name(v@),
            _ => Seq::empty(),
        }
    }

    pub fn literal(&self, literal: &Literal, ci: &ComponentInterface) -> (r: String)
        requires
            self.spec_has_literal(*literal),
        ensures
            r@ == self.spec_literal(*literal, ci),
    {
        if let Literal::Enum(v, _) = literal {
            concat3(
                self.type_label(ci).as_str(),
                ".",
                GoCodeOracle.enum_variant_name(v.as_str()).as_str(),
            )
        } else {
            unreached()
        }
    }
}

/// An enum that an interface uses as an error is labelled as a reference there,
/// and the same enum is labelled as a value where it is not an error.
pub proof fn lemma_error_enum_label(
    e: EnumCodeType,
    with_error: &ComponentInterface,
    without_error: &ComponentInterface,
)
    requires
        with_error.spec_is_name_used_as_error(e.name@),
        !without_error.spec_is_name_used_as_error(e.name@),
    ensures
        e.spec_type_label(without_error) == spec_class_name(e.name@),
        e.spec_type_label(with_error) == "*"@ + e.spec_type_label(without_error),
        e.spec_type_label(with_error) != e.spec_type_label(without_error),
{
    reveal_strlit("*");
    let class_name = spec_class_name(e.name@);
    assert(("*"@ + class_name).len() == class_name.len() + 1);
}

} // verus!
