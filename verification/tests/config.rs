use uniffi_bindgen_go::gen_go::config::{Config, CustomTypeConfig};
use uniffi_bindgen_go::gen_go::filters;
use uniffi_bindgen_go::gen_go::interface::ComponentInterface;
use uniffi_bindgen_go::gen_go::text;
use uniffi_bindgen_go::{
    format_warning, full_bindings_path, go_filename, BindingGeneratorGo, Component,
    GenerationSettings,
};

fn ci(namespace: &str) -> ComponentInterface {
    ComponentInterface {
        namespace: namespace.to_string(),
        types: vec![],
        errors: vec![],
        objects: vec![],
        callback_interfaces: vec![],
    }
}

fn named(package: &str) -> Config {
    let mut config = Config::default();
    config.package_name = Some(package.to_string());
    config
}

#[test]
fn defaults_are_empty() {
    let config = Config::default();
    assert_eq!(config.cdylib_name, None);
    assert_eq!(config.package_name, None);
    assert_eq!(config.c_module_filename, None);
    assert_eq!(config.go_mod, None);
    assert!(config.custom_types.is_empty());
    let custom = CustomTypeConfig::default();
    assert_eq!(custom.imports, None);
    assert_eq!(custom.type_label, None);
    assert_eq!(custom.into_custom, "");
    assert_eq!(custom.from_custom, "");
    let top = uniffi_bindgen_go::Config::default();
    assert_eq!(top.bindings.go.package_name, None);
}

#[test]
fn interface_fills_in_what_is_open() {
    let mut config = Config::default();
    config.update_from_ci(&ci("geometry"));
    assert_eq!(config.package_name.as_deref(), Some("geometry"));
    assert_eq!(config.cdylib_name.as_deref(), Some("uniffi_geometry"));
    assert_eq!(config.c_module_filename, None);
    assert_eq!(config.go_mod, None);
}

#[test]
fn interface_leaves_what_is_set() {
    let mut config = named("shapes");
    config.cdylib_name = Some("libshapes".to_string());
    config.go_mod = Some("example.com".to_string());
    config.update_from_ci(&ci("geometry"));
    assert_eq!(config.package_name.as_deref(), Some("shapes"));
    assert_eq!(config.cdylib_name.as_deref(), Some("libshapes"));
    assert_eq!(config.go_mod.as_deref(), Some("example.com"));
    let mut half = named("shapes");
    half.update_from_ci(&ci("geometry"));
    assert_eq!(half.package_name.as_deref(), Some("shapes"));
    assert_eq!(half.cdylib_name.as_deref(), Some("uniffi_geometry"));
}

#[test]
fn cdylib_name_is_set_once() {
    let mut config = Config::default();
    config.update_from_cdylib_name("first");
    assert_eq!(config.cdylib_name.as_deref(), Some("first"));
    config.update_from_cdylib_name("second");
    assert_eq!(config.cdylib_name.as_deref(), Some("first"));
    assert_eq!(config.package_name, None);
}

#[test]
fn file_names() {
    let config = named("geometry");
    assert_eq!(config.package_name(), "geometry");
    assert_eq!(config.c_module_filename(), "geometry");
    assert_eq!(config.header_filename(), "geometry.h");
    assert_eq!(config.c_filename(), "geometry.c");
    let mut config = named("geometry");
    config.c_module_filename = Some("bridge".to_string());
    assert_eq!(config.c_module_filename(), "bridge");
    assert_eq!(config.header_filename(), "bridge.h");
    assert_eq!(config.c_filename(), "bridge.c");
    let mut unnamed = Config::default();
    unnamed.c_module_filename = Some("bridge".to_string());
    assert_eq!(unnamed.header_filename(), "bridge.h");
}

#[test]
fn async_symbols_carry_the_package() {
    let config = named("geometry");
    assert_eq!(filters::future_continuation_name(&config).unwrap(),
        "geometry_uniffiFutureContinuationCallback");
    assert_eq!(filters::free_gorutine_callback(&config).unwrap(), "geometry_uniffiFreeGorutine");
    let other = named("shapes");
    assert_ne!(filters::future_continuation_name(&config).unwrap(),
        filters::future_continuation_name(&other).unwrap());
    assert_ne!(filters::free_gorutine_callback(&config).unwrap(),
        filters::free_gorutine_callback(&other).unwrap());
}

#[test]
fn components_are_completed() {
    let component = |namespace: &str, config: Config| Component {
        ci: ci(namespace),
        config: uniffi_bindgen_go::Config {
            bindings: uniffi_bindgen_go::InnerConfig { go: config },
        },
    };
    let mut set = Config::default();
    set.cdylib_name = Some("mine".to_string());
    let mut components = vec![
        component("geometry", Config::default()),
        component("sprites", named("pkg")),
        component("todo", set),
    ];
    let settings = GenerationSettings {
        out_dir: "out".to_string(),
        try_format_code: true,
        cdylib: Some("from_settings".to_string()),
    };
    let generator = BindingGeneratorGo { try_format_code: true };
    generator.update_component_configs(&settings, &mut components);
    assert_eq!(components.len(), 3);
    let go = |i: usize| components[i].config.bindings.go.clone();
    assert_eq!(go(0).package_name.as_deref(), Some("geometry"));
    assert_eq!(go(0).cdylib_name.as_deref(), Some("uniffi_geometry"));
    assert_eq!(go(1).package_name.as_deref(), Some("pkg"));
    assert_eq!(go(1).cdylib_name.as_deref(), Some("uniffi_sprites"));
    assert_eq!(go(2).package_name.as_deref(), Some("todo"));
    assert_eq!(go(2).cdylib_name.as_deref(), Some("mine"));
    assert_eq!(components[1].ci.namespace, "sprites");
}

#[test]
fn bindings_path_follows_the_package_name() {
    assert_eq!(full_bindings_path(&named("geometry"), "out"), vec!["out", "geometry"]);
    assert_eq!(full_bindings_path(&named("org.example.geometry"), "/tmp/out"),
        vec!["/tmp/out", "org", "example", "geometry"]);
    assert_eq!(full_bindings_path(&named(""), "out"), vec!["out", ""]);
    assert_eq!(full_bindings_path(&named("a..b."), "out"), vec!["out", "a", "", "b", ""]);
}

#[test]
fn text_is_split_as_the_standard_library_splits_it() {
    for s in ["", ".", "a", "a.b", ".a", "a.", "..", "a..b", "é.ü", "org.example.geometry"] {
        let expected: Vec<String> = s.split('.').map(|p| p.to_string()).collect();
        assert_eq!(text::split_on(s, '.'), expected, "{:?}", s);
    }
    assert_eq!(text::split_on("a/b", '.'), vec!["a/b"]);
    assert_eq!(text::split_on("a/b", '/'), vec!["a", "b"]);
}

#[test]
fn strings_are_joined_and_compared() {
    assert_eq!(text::concat("a", "b"), "ab");
    assert_eq!(text::concat("", ""), "");
    assert_eq!(text::concat3("a", "", "c"), "ac");
    assert!(text::str_eq("abc", "abc"));
    assert!(!text::str_eq("abc", "abd"));
    assert!(!text::str_eq("abc", "ab"));
    assert!(text::str_eq("", ""));
}

#[test]
fn docstrings_become_comments() {
    assert_eq!(filters::docstring("hello", &0).unwrap(), "// hello");
    assert_eq!(filters::docstring("  hello\n  world", &1).unwrap(), "\t// hello\n\t// world");
    assert_eq!(filters::docstring("    a\n      b\n    c\n", &2).unwrap(),
        "\t\t// a\n\t\t//   b\n\t\t// c\n");
    assert_eq!(filters::docstring("a\n\nb", &1).unwrap(), "\t// a\n\t//\n\t// b");
    assert_eq!(filters::docstring("hello", &-3).unwrap(), "// hello");
    assert_eq!(filters::docstring("", &4).unwrap(), "");
}

#[test]
fn docstring_that_fits_is_rendered() {
    assert_eq!(filters::docstring_if_fits("  hello\n  world", &1),
        Some("\t// hello\n\t// world".to_string()));
    assert_eq!(filters::docstring_if_fits("hello", &-1), Some("// hello".to_string()));
    assert_eq!(filters::tabs_prefix(0), "");
    assert_eq!(filters::tabs_prefix(3), "\t\t\t");
}

#[test]
fn go_file_is_named_after_the_namespace() {
    assert_eq!(go_filename(&ci("geometry")), "geometry.go");
    assert_eq!(go_filename(&ci("")), ".go");
}

#[test]
fn format_failure_is_a_warning() {
    assert_eq!(format_warning("geometry.go", "exit status 2"),
        "Warning: Unable to auto-format geometry.go using go fmt: exit status 2");
}
