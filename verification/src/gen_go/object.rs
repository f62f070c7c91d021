//! Objects: values that live on the native side and are held by handle.

use vstd::prelude::*;

use super::converter::{converter_instance, converter_name, register_expr, registration};
use super::interface::ObjectImpl;
use super::text::concat;
use super::{spec_class_name, GoCodeOracle};

verus! {

/// The handler of an object.
#[derive(Debug)]
pub struct ObjectCodeType {
    pub id: String,
    pub imp: ObjectImpl,
}

impl ObjectCodeType {
    pub fn new(id: String, imp: ObjectImpl) -> (r: Self)
        ensures
            r.id == id,
            r.imp == imp,
    {
        Self { id, imp }
    }

    /// An object that foreign code can implement is a Go interface, which is a
    /// fat pointer already; any other object is a pointer to its struct.
    pub open spec fn spec_type_label(&self) -> Seq<char> {
        if self.imp.spec_has_callback_interface() {
            spec_class_name(self.id@)
        } else {
            "*"@ + spec_class_name(self.id@)
        }
    }

    pub fn type_label(&self) -> (r: String)
        ensures
            r@ == self.spec_type_label(),
    {
        if self.imp.has_callback_interface() {
            // When object has callback interface, it is represented
            // as interface, that is already a fat pointer
            GoCodeOracle.class_name(self.id.as_str())
        } else {
            concat("*", GoCodeOracle.class_name(self.id.as_str()).as_str())
        }
    }

    pub open spec fn spec_canonical_name(&self) -> Seq<char> {
        spec_class_name(self.id@)
    }

    pub fn canonical_name(&self) -> (r: String)
        ensures
            r@ == self.spec_canonical_name(),
    {
        GoCodeOracle.class_name(self.id.as_str())
    }

    /// Only an object that foreign code can implement has its converter
    /// installed at startup.
    pub open spec fn spec_initialization_fn(&self) -> Option<Seq<char>> {
        if self.imp.spec_has_callback_interface() {
            Some(register_expr(converter_instance(converter_name(self.spec_canonical_name()))))
        } else {
            None
        }
    }

    pub fn initialization_fn(&self) -> (r: Option<String>)
        ensures
            r is Some <==> self.imp.spec_has_callback_interface(),
            r is Some ==> Some(r->0@) == self.spec_initialization_fn(),
    {
        if self.imp.has_callback_interface() {
            Some(registration(self.canonical_name().as_str()))
        } else {
            None
        }
    }
}

/// Whether foreign code can implement an object decides between the two forms
/// of its label, and nothing else of its label or its canonical name: the
/// label with the flag set is the class name, the label without it is the same
/// name behind a `*`, and two objects of one name have the same label exactly
/// when they agree on the flag.
pub proof fn lemma_object_label_flag(a: ObjectCodeType, b: ObjectCodeType)
    requires
        a.id@ == b.id@,
    ensures
        a.spec_canonical_name() == b.spec_canonical_name(),
        a.imp.spec_has_callback_interface() ==> a.spec_type_label() == spec_class_name(a.id@),
        !a.imp.spec_has_callback_interface() ==> a.spec_type_label() == "*"@ + spec_class_name(
            a.id@,
        ),
        a.spec_type_label() == b.spec_type_label() <==> a.imp.spec_has_callback_interface()
            == b.imp.spec_has_callback_interface(),
{
    reveal_strlit("*");
    let class_name = spec_class_name(a.id@);
    assert(("*"@ + class_name).len() == class_name.len() + 1);
}

} // verus!
