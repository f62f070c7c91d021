//! Types defined in another generated module.

use vstd::prelude::*;

use super::interface::ExternalKind;
use super::text::concat3;

verus! {

/// The handler of an externally defined type.
#[derive(Debug)]
pub struct ExternalCodeType {
    pub name: String,
    pub module: String,
    pub kind: ExternalKind,
    pub namespace: String,
    pub tagged: bool,
}

impl ExternalCodeType {
    pub fn new(
        name: String,
        module: String,
        kind: ExternalKind,
        namespace: String,
        tagged: bool,
    ) -> (r: Self)
        ensures
            r.name == name,
            r.module == module,
            r.kind == kind,
            r.namespace == namespace,
            r.tagged == tagged,
    {
        ExternalCodeType { name, module, kind, namespace, tagged }
    }

    /// The name qualified by the package that defines it; an object of that
    /// package is held by pointer.
    pub open spec fn spec_type_label(&self) -> Seq<char> {
        match self.kind {
            ExternalKind::DataClass => self.namespace@ + "."@ + self.name@,
            ExternalKind::Interface => "*"@ + self.namespace@ + "."@ + self.name@,
            ExternalKind::Trait => self.namespace@ + "."@ + self.name@,
        }
    }

    pub fn type_label(&self) -> (r: String)
        ensures
            r@ == self.spec_type_label(),
    {
        match self.kind {
            ExternalKind::DataClass => concat3(self.namespace.as_str(), ".", self.name.as_str()),
            ExternalKind::Interface => {
                let mut s = concat3("*", self.namespace.as_str(), ".");
                s.append(self.name.as_str());
                s
            },
            ExternalKind::Trait => concat3(self.namespace.as_str(), ".", self.name.as_str()),
        }
    }

    pub open spec fn spec_canonical_name(&self) -> Seq<char> {
        self.name@
    }

    pub fn canonical_name(&self) -> (r: String)
        ensures
            r@ == self.spec_canonical_name(),
    {
        self.name.clone()
    }

    /// The converter lives in the package that defines the type.
    pub open spec fn spec_ffi_converter_name(&self) -> Seq<char> {
        self.namespace@ + ".FfiConverter"@ + self.spec_canonical_name()
    }

    pub fn ffi_converter_name(&self) -> (r: String)
        ensures
            r@ == self.spec_ffi_converter_name(),
    {
        concat3(self.namespace.as_str(), ".FfiConverter", self.canonical_name().as_str())
    }

    /// The destroyer lives in the package that defines the type.
    pub open spec fn spec_ffi_destroyer_name(&self) -> Seq<char> {
        self.namespace@ + ".FfiDestroyer"@ + self.spec_canonical_name()
    }

    pub fn ffi_destroyer_name(&self) -> (r: String)
        ensures
            r@ == self.spec_ffi_destroyer_name(),
    {
        concat3(self.namespace.as_str(), ".FfiDestroyer", self.canonical_name().as_str())
    }
}

} // verus!
