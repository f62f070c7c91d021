//! Optionals, sequences and maps: the types built from other types.

use vstd::prelude::*;

use super::interface::{ComponentInterface, Literal, Type};
use super::text::{concat, concat3};
use super::{
    canonical_name_of, has_literal, lemma_resolved_canonical_name, lemma_resolved_has_literal,
    lemma_resolved_height, lemma_resolved_literal, lemma_resolved_type_label, literal_of,
    type_height, type_label_of, GoCodeOracle,
};

verus! {

/// The Go text of a constant of an optional type: `nil` for the absent value,
/// and what the inner type makes of any other constant.
pub fn render_literal(literal: &Literal, inner: &Type, ci: &ComponentInterface) -> (r: String)
    requires
        *literal is Null || has_literal(*inner, *literal),
    ensures
        r@ == (if *literal is Null {
            "nil"@
        } else {
            literal_of(*inner, *literal, ci)
        }),
    decreases 1 + type_height(*inner), 0nat,
{
    match literal {
        Literal::Null => "nil".to_owned(),
        // For optionals
        _ => {
            let handler = GoCodeOracle.find(inner);
            proof {
                lemma_resolved_height(*inner);
                lemma_resolved_has_literal(*inner, *literal);
                lemma_resolved_literal(*inner, *literal, ci);
            }
            handler.literal(literal, ci)
        },
    }
}

/// The handler of an optional type.
#[derive(Debug)]
pub struct OptionalCodeType {
    pub inner: Type,
}

impl OptionalCodeType {
    pub fn new(inner: Type) -> (r: Self)
        ensures
            r.inner == inner,
    {
        Self { inner }
    }

    fn inner(&self) -> (r: &Type)
        ensures
            *r == self.inner,
    {
        &self.inner
    }

    /// A pointer to the inner type.
    pub open spec fn spec_type_label(&self, ci: &ComponentInterface) -> Seq<char> {
        "*"@ + type_label_of(self.inner, ci)
    }

    pub fn type_label(&self, ci: &ComponentInterface) -> (r: String)
        ensures
            r@ == self.spec_type_label(ci),
        decreases 1 + type_height(self.inner), 0nat,
    {
        let handler = GoCodeOracle.find(self.inner());
        proof {
            lemma_resolved_height(self.inner);
            lemma_resolved_type_label(self.inner, ci);
        }
        concat("*", handler.type_label(ci).as_str())
    }

    pub open spec fn spec_canonical_name(&self) -> Seq<char> {
        "Optional"@ + canonical_name_of(self.inner)
    }

    pub fn canonical_name(&self) -> (r: String)
        ensures
            r@ == self.spec_canonical_name(),
        decreases 1 + type_height(self.inner), 0nat,
    {
        let handler = GoCodeOracle.find(self.inner());
        proof {
            lemma_resolved_height(self.inner);
            lemma_resolved_canonical_name(self.inner);
        }
        concat("Optional", handler.canonical_name().as_str())
    }

    /// The absent value is a constant of every optional type; any other constant
    /// is one where it is a constant of the inner type.
    pub open spec fn spec_has_literal(&self, literal: Literal) -> bool {
        literal is Null || has_literal(self.inner, literal)
    }

    pub open spec fn spec_literal(&self, literal: Literal, ci: &ComponentInterface) -> Seq<char> {
        if literal is Null {
            "nil"@
        } else {
            literal_of(self.inner, literal, ci)
        }
    }

    pub fn literal(&self, literal: &Literal, ci: &ComponentInterface) -> (r: String)
        requires
            self.spec_has_literal(*literal),
        ensures
            r@ == self.spec_literal(*literal, ci),
        decreases 1 + type_height(self.inner), 1nat,
    {
        render_literal(literal, self.inner(), ci)
    }
}

/// The handler of a sequence type.
#[derive(Debug)]
pub struct SequenceCodeType {
    pub inner: Type,
}

impl SequenceCodeType {
    pub fn new(inner: Type) -> (r: Self)
        ensures
            r.inner == inner,
    {
        Self { inner }
    }

    fn inner(&self) -> (r: &Type)
        ensures
            *r == self.inner,
    {
        &self.inner
    }

    /// A slice of the inner type.
    pub open spec fn spec_type_label(&self, ci: &ComponentInterface) -> Seq<char> {
        "[]"@ + type_label_of(self.inner, ci)
    }

    pub fn type_label(&self, ci: &ComponentInterface) -> (r: String)
        ensures
            r@ == self.spec_type_label(ci),
        decreases 1 + type_height(self.inner), 0nat,
    {
        let handler = GoCodeOracle.find(self.inner());
        proof {
            lemma_resolved_height(self.inner);
            lemma_resolved_type_label(self.inner, ci);
        }
        concat("[]", handler.type_label(ci).as_str())
    }

    pub open spec fn spec_canonical_name(&self) -> Seq<char> {
        "Sequence"@ + canonical_name_of(self.inner)
    }

    pub fn canonical_name(&self) -> (r: String)
        ensures
            r@ == self.spec_canonical_name(),
        decreases 1 + type_height(self.inner), 0nat,
    {
        let handler = GoCodeOracle.find(self.inner());
        proof {
            lemma_resolved_height(self.inner);
            lemma_resolved_canonical_name(self.inner);
        }
        concat("Sequence", handler.canonical_name().as_str())
    }
}

/// The handler of a map type.
#[derive(Debug)]
pub struct MapCodeType {
    pub key: Type,
    pub value: Type,
}

impl MapCodeType {
    pub fn new(key: Type, value: Type) -> (r: Self)
        ensures
            r.key == key,
            r.value == value,
    {
        Self { key, value }
    }

    fn key(&self) -> (r: &Type)
        ensures
            *r == self.key,
    {
        &self.key
    }

    fn value(&self) -> (r: &Type)
        ensures
            *r == self.value,
    {
        &self.value
    }

    /// A Go map from the key type to the value type.
    pub open spec fn spec_type_label(&self, ci: &ComponentInterface) -> Seq<char> {
        "map["@ + type_label_of(self.key, ci) + "]"@ + type_label_of(self.value, ci)
    }

    pub fn type_label(&self, ci: &ComponentInterface) -> (r: String)
        ensures
            r@ == self.spec_type_label(ci),
        decreases 1 + type_height(self.key) + type_height(self.value), 0nat,
    {
        let key = GoCodeOracle.find(self.key());
        let value = GoCodeOracle.find(self.value());
        proof {
            lemma_resolved_height(self.key);
            lemma_resolved_height(self.value);
            lemma_resolved_type_label(self.key, ci);
            lemma_resolved_type_label(self.value, ci);
        }
        let mut s = concat3("map[", key.type_label(ci).as_str(), "]");
        s.append(value.type_label(ci).as_str());
        s
    }

    pub open spec fn spec_canonical_name(&self) -> Seq<char> {
        "Map"@ + canonical_name_of(self.key) + canonical_name_of(self.value)
    }

    pub fn canonical_name(&self) -> (r: String)
        ensures
            r@ == self.spec_canonical_name(),
        decreases 1 + type_height(self.key) + type_height(self.value), 0nat,
    {
        let key = GoCodeOracle.find(self.key());
        let value = GoCodeOracle.find(self.value());
        proof {
            lemma_resolved_height(self.key);
            lemma_resolved_height(self.value);
            lemma_resolved_canonical_name(self.key);
            lemma_resolved_canonical_name(self.value);
        }
        concat3("Map", key.canonical_name().as_str(), value.canonical_name().as_str())
    }
}

} // verus!
