//! Go binding generation for component interfaces: the type-driven engine that
//! decides how every interface type is spelled, named and passed over the C ABI.

use vstd::prelude::*;

use crate::gen_go::config::{default_cdylib_name, set_or};
use crate::gen_go::interface::ComponentInterface;
use crate::gen_go::text::{concat, split_on, split_text};

pub mod fixtures;
pub mod gen_go;

verus! {

/// The options of the bindings of each language.
#[derive(Debug, Clone)]
pub struct InnerConfig {
    pub go: gen_go::config::Config,
}

impl Default for InnerConfig {
    fn default() -> (r: Self)
        ensures
            r.go.package_name is None,
            r.go.cdylib_name is None,
            r.go.c_module_filename is None,
            r.go.go_mod is None,
    {
        InnerConfig { go: gen_go::config::Config::default() }
    }
}

/// The options as the configuration file lays them out: those for Go stand
/// under `bindings.go`.
#[derive(Debug, Clone)]
pub struct Config {
    pub bindings: InnerConfig,
}

impl Default for Config {
    fn default() -> (r: Self)
        ensures
            r.bindings.go.package_name is None,
            r.bindings.go.cdylib_name is None,
            r.bindings.go.c_module_filename is None,
            r.bindings.go.go_mod is None,
    {
        Config { bindings: InnerConfig::default() }
    }
}

/// An interface together with the options to generate its bindings with.
#[derive(Debug)]
pub struct Component {
    pub ci: ComponentInterface,
    pub config: Config,
}

/// What is asked of one run of the generator.
#[derive(Debug)]
pub struct GenerationSettings {
    pub out_dir: String,
    pub try_format_code: bool,
    pub cdylib: Option<String>,
}

/// The generator of Go bindings.
#[derive(Debug)]
pub struct BindingGeneratorGo {
    pub try_format_code: bool,
}

/// What the options of a component are after they were completed from its
/// interface: the package is named, by the namespace unless the options name
/// it, and so is the native library, by `uniffi_` and the namespace unless the
/// options name it. Nothing else changes.
pub open spec fn completed(before: Component, after: Component) -> bool {
    &&& after.ci == before.ci
    &&& after.config.bindings.go.package_name is Some
    &&& after.config.bindings.go.package_name->0@ == set_or(
        before.config.bindings.go.package_name,
        before.ci.namespace@,
    )
    &&& after.config.bindings.go.cdylib_name is Some
    &&& after.config.bindings.go.cdylib_name->0@ == set_or(
        before.config.bindings.go.cdylib_name,
        default_cdylib_name(before.ci.namespace@),
    )
    &&& after.config.bindings.go.c_module_filename == before.config.bindings.go.c_module_filename
    &&& after.config.bindings.go.custom_types == before.config.bindings.go.custom_types
    &&& after.config.bindings.go.go_mod == before.config.bindings.go.go_mod
}

impl BindingGeneratorGo {
    /// Completes the options of every component from its interface.
    ///
    /// The interface names the native library before the settings are asked, so
    /// the library named in the settings is used for no component.
    pub fn update_component_configs(
        &self,
        settings: &GenerationSettings,
        components: &mut Vec<Component>,
    )
        ensures
            final(components)@.len() == old(components)@.len(),
            forall|i: int|
                0 <= i < old(components)@.len() ==> completed(
                    #[trigger] old(components)@[i],
                    final(components)@[i],
                ),
    {
        let mut i: usize = 0;
        while i < components.len()
            invariant
                i <= components@.len(),
                components@.len() == old(components)@.len(),
                forall|j: int|
                    0 <= j < i ==> completed(#[trigger] old(components)@[j], components@[j]),
                forall|j: int| i <= j < components@.len() ==> components@[j] == old(components)@[j],
            decreases components@.len() - i,
        {
            let component = &mut components[i];
            component.config.bindings.go.update_from_ci(&component.ci);
            if let Some(name) = &settings.cdylib {
                component.config.bindings.go.update_from_cdylib_name(name.as_str());
            }
            i += 1;
        }
    }
}

/// The name of the Go file of an interface: the namespace with `.go` behind.
pub fn go_filename(ci: &ComponentInterface) -> (r: String)
    ensures
        r@ == ci.namespace@ + ".go"@,
{
    concat(ci.namespace.as_str(), ".go")
}

/// What is said when `go fmt` could not format a generated file. The file
/// stays as it was generated, so this is a warning and no error.
pub open spec fn spec_format_warning(file_name: Seq<char>, reason: Seq<char>) -> Seq<char> {
    "Warning: Unable to auto-format "@ + file_name + " using go fmt: "@ + reason
}

pub fn format_warning(file_name: &str, reason: &str) -> (r: String)
    ensures
        r@ == spec_format_warning(file_name@, reason@),
{
    let mut s = concat("Warning: Unable to auto-format ", file_name);
    s.append(" using go fmt: ");
    s.append(reason);
    s
}

/// The directories from the output directory down to the one of the package:
/// the output directory, then one directory for each part of the package's
/// name between its dots.
pub fn full_bindings_path(config: &gen_go::config::Config, out_dir: &str) -> (r: Vec<String>)
    requires
        config.package_name is Some,
    ensures
        gen_go::wrapper::string_views(r@) == seq![out_dir@] + split_text(
            config.package_name->0@,
            '.',
        ),
{
    let mut path: Vec<String> = Vec::new();
    path.push(out_dir.to_owned());
    let name = config.package_name();
    let mut parts = split_on(name.as_str(), '.');
    let ghost first = path@;
    let ghost rest = parts@;
    path.append(&mut parts);
    assert(gen_go::wrapper::string_views(path@) =~= seq![out_dir@] + gen_go::wrapper::string_views(
        rest,
    ));
    path
}

} // verus!
