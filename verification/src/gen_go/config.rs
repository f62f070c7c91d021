//! The options of one generation pass.

use std::collections::HashMap;
use vstd::prelude::*;

use super::interface::ComponentInterface;
use super::text::concat;

verus! {

/// How a custom type is written in Go, where the builtin type behind it is not wanted.
#[derive(Debug, Clone)]
pub struct CustomTypeConfig {
    pub imports: Option<Vec<String>>,
    /// The Go type that stands for the custom type.
    pub type_label: Option<String>,
    /// The expression that makes the Go type from the builtin value named `{}`.
    pub into_custom: String,
    /// The expression that makes the builtin value from the Go value named `{}`.
    pub from_custom: String,
}

impl Default for CustomTypeConfig {
    fn default() -> (r: Self)
        ensures
            r.imports is None,
            r.type_label is None,
            r.into_custom@.len() == 0,
            r.from_custom@.len() == 0,
    {
        CustomTypeConfig {
            imports: None,
            type_label: None,
            into_custom: String::new(),
            from_custom: String::new(),
        }
    }
}

/// The options that decide where the generated code goes and what it is called.
#[derive(Debug, Clone)]
pub struct Config {
    pub cdylib_name: Option<String>,
    pub package_name: Option<String>,
    pub c_module_filename: Option<String>,
    pub custom_types: HashMap<String, CustomTypeConfig>,
    /// The Go module under which the generated packages are imported.
    pub go_mod: Option<String>,
}

impl Default for Config {
    fn default() -> (r: Self)
        ensures
            r.cdylib_name is None,
            r.package_name is None,
            r.c_module_filename is None,
            r.custom_types@ == Map::<String, CustomTypeConfig>::empty(),
            r.go_mod is None,
    {
        Config {
            cdylib_name: None,
            package_name: None,
            c_module_filename: None,
            custom_types: HashMap::new(),
            go_mod: None,
        }
    }
}

/// An option that was set, or else the value it falls back to.
pub open spec fn set_or(option: Option<String>, fallback: Seq<char>) -> Seq<char> {
    match option {
        Some(s) => s@,
        None => fallback,
    }
}

/// The name of the native library of an interface, where none is configured.
pub open spec fn default_cdylib_name(namespace: Seq<char>) -> Seq<char> {
    "uniffi_"@ + namespace
}

impl Config {
    /// Fills in what the interface decides and the options left open: the package
    /// is called as the namespace, the native library `uniffi_` and the namespace.
    pub fn update_from_ci(&mut self, ci: &ComponentInterface)
        ensures
            final(self).package_name is Some,
            final(self).package_name->0@ == set_or(old(self).package_name, ci.namespace@),
            final(self).cdylib_name is Some,
            final(self).cdylib_name->0@ == set_or(
                old(self).cdylib_name,
                default_cdylib_name(ci.namespace@),
            ),
            final(self).c_module_filename == old(self).c_module_filename,
            final(self).custom_types == old(self).custom_types,
            final(self).go_mod == old(self).go_mod,
    {
        if self.package_name.is_none() {
            self.package_name = Some(ci.namespace.clone());
        }
        if self.cdylib_name.is_none() {
            self.cdylib_name = Some(concat("uniffi_", ci.namespace.as_str()));
        }
    }

    /// Sets the name of the native library, unless one is configured.
    pub fn update_from_cdylib_name(&mut self, cdylib_name: &str)
        ensures
            final(self).cdylib_name is Some,
            final(self).cdylib_name->0@ == set_or(old(self).cdylib_name, cdylib_name@),
            final(self).package_name == old(self).package_name,
            final(self).c_module_filename == old(self).c_module_filename,
            final(self).custom_types == old(self).custom_types,
            final(self).go_mod == old(self).go_mod,
    {
        if self.cdylib_name.is_none() {
            self.cdylib_name = Some(cdylib_name.to_owned());
        }
    }

    /// The name of the go package containing the high-level foreign-language bindings.
    pub fn package_name(&self) -> (r: String)
        requires
            self.package_name is Some,
        ensures
            r == self.package_name->0,
    {
        match &self.package_name {
            Some(name) => name.clone(),
            None => unreached(),
        }
    }

    pub open spec fn spec_c_module_filename(&self) -> Seq<char> {
        match self.c_module_filename {
            Some(name) => name@,
            None => self.package_name->0@,
        }
    }

    /// The filename stem for the lower-level C module containing the FFI declarations.
    pub fn c_module_filename(&self) -> (r: String)
        requires
            self.c_module_filename is Some || self.package_name is Some,
        ensures
            r@ == self.spec_c_module_filename(),
    {
        match self.c_module_filename.as_ref() {
            Some(name) => name.clone(),
            None => self.package_name(),
        }
    }

    /// The name of the `.h` file for the lower-level C module with FFI declarations.
    pub fn header_filename(&self) -> (r: String)
        requires
            self.c_module_filename is Some || self.package_name is Some,
        ensures
            r@ == self.spec_c_module_filename() + ".h"@,
    {
        concat(self.c_module_filename().as_str(), ".h")
    }

    /// The name of the `.c` file for the lower-level C module with FFI declarations.
    pub fn c_filename(&self) -> (r: String)
        requires
            self.c_module_filename is Some || self.package_name is Some,
        ensures
            r@ == self.spec_c_module_filename() + ".c"@,
    {
        concat(self.c_module_filename().as_str(), ".c")
    }
}

} // verus!
