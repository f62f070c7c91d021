//! The state of one pass over the types of an interface: which templates were
//! included and which imports were asked for.

use vstd::prelude::*;

use super::config::Config;
use super::imports::{inserted, ImportRequirement, ImportSet, ImportView};
use super::interface::{ComponentInterface, Field};
use super::text::{concat, concat3, trim_end_slashes, trim_trailing_slashes};
use super::{lemma_resolved_type_label, type_label_of, GoCodeOracle};

verus! {

/// The path under which a package of this project is imported: below the
/// configured Go module, if there is one.
pub open spec fn local_import_path(go_mod: Option<String>, mod_name: Seq<char>) -> Seq<char> {
    match go_mod {
        Some(go_mod) => trim_end_slashes(go_mod@) + "/"@ + mod_name,
        None => mod_name,
    }
}

/// The plain import of a package.
pub open spec fn module_import(path: Seq<char>) -> ImportView {
    ImportView { all: false, path }
}

/// Renders Go helper code for all types.
///
/// A renderer is made for one pass and used for that pass only: what it has
/// included and collected belongs to the file being generated.
#[derive(Debug)]
pub struct TypeRenderer<'a> {
    pub config: &'a Config,
    pub ci: &'a ComponentInterface,
    /// The names of the templates included so far.
    pub include_once_names: Vec<String>,
    /// The imports added so far.
    pub imports: ImportSet,
}

impl<'a> TypeRenderer<'a> {
    /// Whether a template of this name has been included.
    pub open spec fn included(&self, name: Seq<char>) -> bool {
        exists|i: int|
            0 <= i < self.include_once_names@.len() && (#[trigger] self.include_once_names@[i])@
                == name
    }

    pub fn new(config: &'a Config, ci: &'a ComponentInterface) -> (r: Self)
        ensures
            r.config == config,
            r.ci == ci,
            r.imports@.len() == 0,
            forall|name: Seq<char>| !r.included(name),
    {
        Self { config, ci, include_once_names: Vec::new(), imports: ImportSet::new() }
    }

    /// Helper for including a template, but only once.
    ///
    /// The first time this is called with a name it will return true, indicating that we should
    /// include the template. Subsequent calls will return false.
    pub fn include_once_check(&mut self, name: &str) -> (r: bool)
        ensures
            r == !old(self).included(name@),
            forall|n: Seq<char>| final(self).included(n) <==> (old(self).included(n) || n == name@),
            final(self).imports == old(self).imports,
            final(self).config == old(self).config,
            final(self).ci == old(self).ci,
    {
        let wanted = name.to_owned();
        let mut i: usize = 0;
        while i < self.include_once_names.len()
            invariant
                i <= self.include_once_names@.len(),
                wanted@ == name@,
                *self == *old(self),
                forall|j: int| 0 <= j < i ==> (#[trigger] self.include_once_names@[j])@ != name@,
            decreases self.include_once_names@.len() - i,
        {
            if self.include_once_names[i] == wanted {
                assert(self.include_once_names@[i as int]@ == name@);
                return false;
            }
            i += 1;
        }
        let ghost before = self.include_once_names@;
        self.include_once_names.push(wanted);
        proof {
            let after = self.include_once_names@;
            assert(after[before.len() as int]@ == name@);
            assert forall|n: Seq<char>| self.included(n) <==> (old(self).included(n) || n
                == name@) by {
                if old(self).included(n) {
                    let k = choose|k: int| 0 <= k < before.len() && (#[trigger] before[k])@ == n;
                    assert(after[k]@ == n);
                }
                if self.included(n) {
                    let k = choose|k: int| 0 <= k < after.len() && (#[trigger] after[k])@ == n;
                    if k < before.len() {
                        assert(before[k]@ == n);
                    }
                }
            }
        }
        true
    }

    /// Helper to add an import statement
    ///
    /// Call this to cause an import statement to be added at the top of the
    /// file. Imports will be sorted and de-duped.
    ///
    /// Returns an empty string so that it can be used inside a template expression.
    pub fn add_import(&mut self, name: &str) -> (r: &'static str)
        ensures
            r@.len() == 0,
            final(self).imports@ == inserted(old(self).imports@, module_import(name@)),
            final(self).include_once_names == old(self).include_once_names,
            final(self).config == old(self).config,
            final(self).ci == old(self).ci,
    {
        self.imports.add(ImportRequirement::Module { mod_name: name.to_owned() });
        proof {
            reveal_strlit("");
        }
        ""
    }

    /// Adds the import of a package of this project.
    pub fn add_local_import(&mut self, mod_name: &str) -> (r: &'static str)
        ensures
            r@.len() == 0,
            final(self).imports@ == inserted(
                old(self).imports@,
                module_import(local_import_path(old(self).config.go_mod, mod_name@)),
            ),
            final(self).include_once_names == old(self).include_once_names,
            final(self).config == old(self).config,
            final(self).ci == old(self).ci,
    {
        let mod_name = if let Some(ref go_mod) = self.config.go_mod {
            let go_mod = trim_trailing_slashes(go_mod.as_str());
            concat3(go_mod, "/", mod_name)
        } else {
            mod_name.to_owned()
        };

        self.imports.add(ImportRequirement::Module { mod_name });
        proof {
            reveal_strlit("");
        }
        ""
    }

    /// The label of a field's type, as a pointer where the label is the name of
    /// a type that the interface uses as an error.
    pub open spec fn spec_field_type_name(&self, field: Field, ci: &ComponentInterface) -> Seq<char> {
        let name = type_label_of(field.type_, ci);
        if self.ci.spec_is_name_used_as_error(name) {
            "*"@ + name
        } else {
            name
        }
    }

    pub fn field_type_name(&self, field: &Field, ci: &ComponentInterface) -> (r: String)
        ensures
            r@ == self.spec_field_type_name(*field, ci),
    {
        proof {
            lemma_resolved_type_label(field.type_, ci);
        }
        let name = GoCodeOracle.find(&field.as_type()).type_label(ci);
        match self.ci.is_name_used_as_error(name.as_str()) {
            true => concat("*", name.as_str()),
            false => name,
        }
    }

    /// Ends the pass and hands over the imports it has collected.
    pub fn into_imports(self) -> (r: ImportSet)
        ensures
            r == self.imports,
    {
        self.imports
    }
}

} // verus!
