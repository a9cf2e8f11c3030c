use std::cell::RefCell;

use debcrafter::instance::{PackageInstance, Includes};
use debcrafter::schema::{
    ConfExtPackageSpec, ConfFormat, ConfType, Config, DebconfPriority, ExternalVar, InternalVar,
    Package, PackageConfig, PackageSpec, ServicePackageSpec, UserSpec, VarType,
};
use debcrafter::templates::{generate, paragraph};

fn user(name: Option<&str>, group: bool) -> UserSpec {
    UserSpec { name: name.map(String::from), group, create: None }
}

fn service_spec(user: UserSpec, config: Vec<(String, Config)>) -> PackageSpec {
    PackageSpec::Service(ServicePackageSpec {
        bin_package: "web-bin".to_string(),
        binary: "webd".to_string(),
        conf_param: None,
        conf_d: None,
        user,
        config,
        after: None,
        extra_service_config: None,
        summary: Some("Web service".to_string()),
        long_doc: None,
    })
}

fn confext_spec(extends: &str, config: Vec<(String, Config)>) -> PackageSpec {
    PackageSpec::ConfExt(ConfExtPackageSpec {
        extends: extends.to_string(),
        replaces: false,
        summary: None,
        long_doc: Some("Extra settings".to_string()),
        config,
    })
}

fn package(name: &str, variants: &[&str], spec: PackageSpec) -> Package {
    Package {
        name: name.to_string(),
        variants: variants.iter().map(|v| v.to_string()).collect(),
        spec,
    }
}

fn static_conf(content: &str) -> Config {
    Config {
        public: false,
        conf_type: ConfType::Static { content: content.to_string(), internal: false },
    }
}

fn ivar(ty: VarType, summary: &str, default: Option<&str>, long_doc: Option<&str>) -> InternalVar {
    InternalVar {
        ty,
        summary: summary.to_string(),
        long_doc: long_doc.map(String::from),
        default: default.map(String::from),
        priority: DebconfPriority::Medium,
    }
}

fn dynamic_conf(ivars: Vec<(String, InternalVar)>, evars: Vec<(String, Vec<(String, ExternalVar)>)>) -> Config {
    Config {
        public: true,
        conf_type: ConfType::Dynamic {
            format: ConfFormat::Toml,
            ivars,
            evars,
            hvars: Vec::new(),
            cat_dir: None,
            cat_files: Vec::new(),
            comment: None,
        },
    }
}

fn evar_refs(names: &[&str]) -> Vec<(String, Vec<(String, ExternalVar)>)> {
    names
        .iter()
        .map(|n| (n.to_string(), vec![("port".to_string(), ExternalVar { name: None, store: true })]))
        .collect()
}

fn web(name: Option<&str>, group: bool) -> Package {
    package("web", &[], service_spec(user(name, group), Vec::new()))
}

#[test]
fn no_variants_instantiates_under_own_name() {
    let p = package("web", &[], service_spec(user(None, false), Vec::new()));
    let inst = p.instantiate(None, None).unwrap();
    assert_eq!(inst.name, "web");
    assert_eq!(inst.variant, None);
    assert!(p.instantiate(Some("fast"), None).is_none());
    assert!(p.instantiate(Some(""), None).is_none());
}

#[test]
fn variants_need_a_member() {
    let p = package("worker", &["fast", "slow"], service_spec(user(None, false), Vec::new()));
    assert!(p.instantiate(None, None).is_none());
    let fast = p.instantiate(Some("fast"), None).unwrap();
    assert_eq!(fast.name, "worker-fast");
    assert_eq!(fast.variant, Some("fast"));
    assert_eq!(p.instantiate(Some("slow"), None).unwrap().name, "worker-slow");
    assert!(p.instantiate(Some("medium"), None).is_none());
    assert!(p.instantiate(Some("fas"), None).is_none());
}

#[test]
fn instance_keeps_deps() {
    let p = web(None, false);
    let includes: Includes = vec![("db".to_string(), web(None, true))];
    let inst = p.instantiate(None, Some(&includes)).unwrap();
    assert_eq!(inst.includes.unwrap().len(), 1);
    assert_eq!(inst.includes.unwrap()[0].0, "db");
}

#[test]
fn shared_reference_loaded_once() {
    let config = vec![
        ("a.conf".to_string(), dynamic_conf(Vec::new(), evar_refs(&["shared"]))),
        ("b.conf".to_string(), dynamic_conf(Vec::new(), evar_refs(&["shared", "other"]))),
        ("c.conf".to_string(), static_conf("x")),
    ];
    let p = package("web", &[], service_spec(user(None, false), config));
    let calls: RefCell<Vec<String>> = RefCell::new(Vec::new());
    let includes = p.load_includes(|n: &str| {
        calls.borrow_mut().push(n.to_string());
        web(None, false)
    });
    let names: Vec<&str> = includes.iter().map(|d| d.0.as_str()).collect();
    assert_eq!(names, vec!["shared", "other"]);
    assert_eq!(*calls.borrow(), vec!["shared".to_string(), "other".to_string()]);
}

#[test]
fn extension_loads_its_base() {
    let config = vec![("x.conf".to_string(), dynamic_conf(Vec::new(), evar_refs(&["db"])))];
    let p = package("web-extra", &[], confext_spec("web", config));
    let count = RefCell::new(0u32);
    let includes = p.load_includes(|n: &str| {
        *count.borrow_mut() += 1;
        package(n, &[], service_spec(user(None, false), Vec::new()))
    });
    let names: Vec<&str> = includes.iter().map(|d| d.0.as_str()).collect();
    assert_eq!(names, vec!["db", "web"]);
    assert_eq!(includes[1].1.name, "web");
    assert_eq!(*count.borrow(), 2);
}

#[test]
fn extension_base_already_referenced() {
    let config = vec![("x.conf".to_string(), dynamic_conf(Vec::new(), evar_refs(&["web"])))];
    let p = package("web-extra", &[], confext_spec("web", config));
    let count = RefCell::new(0u32);
    let includes = p.load_includes(|_: &str| {
        *count.borrow_mut() += 1;
        web(None, false)
    });
    assert_eq!(includes.len(), 1);
    assert_eq!(*count.borrow(), 1);
}

#[test]
fn no_references_loads_nothing() {
    let p = package("web", &[], service_spec(user(None, false), vec![("c".to_string(), static_conf("x"))]));
    let includes = p.load_includes(|_: &str| -> Package { panic!("nothing to load") });
    assert!(includes.is_empty());
}

#[test]
fn as_service_by_shape() {
    let service = web(None, false);
    let inst = service.instantiate(None, None).unwrap();
    let s = inst.as_service().unwrap();
    assert_eq!(s.service_name(), "web");
    let ext = package("web-extra", &["a"], confext_spec("web", Vec::new()));
    let inst = ext.instantiate(Some("a"), None).unwrap();
    assert_eq!(inst.name, "web-extra-a");
    assert!(inst.as_service().is_none());
}

#[test]
fn user_and_group_names() {
    let p = web(None, true);
    let inst = p.instantiate(None, None).unwrap();
    let s = inst.as_service().unwrap();
    assert_eq!(s.user_name(), "web");
    assert_eq!(s.service_group(), Some("web"));

    let p = web(Some("websvc"), true);
    let inst = p.instantiate(None, None).unwrap();
    let s = inst.as_service().unwrap();
    assert_eq!(s.user_name(), "websvc");
    assert_eq!(s.service_group(), Some("websvc"));
    assert_eq!(s.service_name(), "web");

    let p = web(Some("websvc"), false);
    let inst = p.instantiate(None, None).unwrap();
    assert_eq!(inst.as_service().unwrap().service_group(), None);
    let p = web(None, false);
    let inst = p.instantiate(None, None).unwrap();
    assert_eq!(inst.as_service().unwrap().service_group(), None);
}

#[test]
fn service_name_follows_variant() {
    let p = package("worker", &["fast"], service_spec(user(None, true), Vec::new()));
    let inst = p.instantiate(Some("fast"), None).unwrap();
    let s = inst.as_service().unwrap();
    assert_eq!(s.service_name(), "worker-fast");
    assert_eq!(s.user_name(), "worker-fast");
    assert_eq!(s.variant, Some("fast"));
}

#[test]
fn template_for_bool_variable() {
    let v = ivar(VarType::Bool, "Enable feature", Some("true"), None);
    let config = vec![("web.conf".to_string(), dynamic_conf(vec![("enabled".to_string(), v)], Vec::new()))];
    let p = package("web", &[], service_spec(user(None, false), config));
    let inst = p.instantiate(None, None).unwrap();
    assert_eq!(
        generate(&inst),
        "\nTemplate: web/enabled\nType: bool\nDefault: true\nDescription: Enable feature\n"
    );
}

#[test]
fn template_second_config_has_separator() {
    let a = ivar(VarType::Bool, "Enable feature", Some("true"), None);
    let b = ivar(VarType::BindPort, "Port", None, Some("The port.\n\nAny free one."));
    let config = vec![
        ("a.conf".to_string(), dynamic_conf(vec![("enabled".to_string(), a)], Vec::new())),
        ("s.conf".to_string(), static_conf("x")),
        ("b.conf".to_string(), dynamic_conf(vec![("port".to_string(), b)], Vec::new())),
    ];
    let p = package("web", &[], service_spec(user(None, false), config));
    let inst = p.instantiate(None, None).unwrap();
    assert_eq!(
        generate(&inst),
        "\nTemplate: web/enabled\nType: bool\nDefault: true\nDescription: Enable feature\n\
         \nTemplate: web/port\nType: string\nDescription: Port\n The port.\n .\n Any free one.\n"
    );
}

#[test]
fn template_without_dynamic_entries_is_empty() {
    let p = package("web", &[], service_spec(user(None, false), vec![("s".to_string(), static_conf("x"))]));
    let inst = p.instantiate(None, None).unwrap();
    assert_eq!(generate(&inst), "");
}

#[test]
fn template_types() {
    let vars = vec![
        ("s".to_string(), ivar(VarType::String, "S", None, None)),
        ("u".to_string(), ivar(VarType::Uint, "U", None, None)),
        ("p".to_string(), ivar(VarType::Path { file_type: None, create: None }, "P", None, None)),
    ];
    let config = vec![("c".to_string(), dynamic_conf(vars, Vec::new()))];
    let p = package("db", &["x"], service_spec(user(None, false), config));
    let inst = p.instantiate(Some("x"), None).unwrap();
    let text = generate(&inst);
    assert_eq!(text.matches("Type: string\n").count(), 3);
    assert!(text.starts_with("\nTemplate: db-x/s\n"));
}

#[test]
fn paragraph_lines() {
    assert_eq!(paragraph("one"), " one\n");
    assert_eq!(paragraph("one\ntwo"), " one\n two\n");
    assert_eq!(paragraph("one\n\ntwo"), " one\n .\n two\n");
    assert_eq!(paragraph(""), " .\n");
    assert_eq!(paragraph("end\n"), " end\n .\n");
}

#[test]
fn config_read_back_in_order() {
    let config = vec![
        ("z.conf".to_string(), static_conf("1")),
        ("a.conf".to_string(), dynamic_conf(Vec::new(), Vec::new())),
        ("m.conf".to_string(), static_conf("3")),
    ];
    let p = package("web", &[], service_spec(user(None, false), config));
    let inst: PackageInstance = p.instantiate(None, None).unwrap();
    let names: Vec<&str> = inst.config().iter().map(|c| c.0.as_str()).collect();
    assert_eq!(names, vec!["z.conf", "a.conf", "m.conf"]);
    assert_eq!(p.config().len(), 3);
    let s = inst.as_service().unwrap();
    assert_eq!(s.config().len(), 3);
}

#[test]
fn summary_and_long_doc_by_shape() {
    let s = service_spec(user(None, false), Vec::new());
    assert_eq!(s.summary().as_deref(), Some("Web service"));
    assert_eq!(s.long_doc().as_deref(), None);
    let e = confext_spec("web", Vec::new());
    assert_eq!(e.summary().as_deref(), None);
    assert_eq!(e.long_doc().as_deref(), Some("Extra settings"));
}

#[test]
fn format_names() {
    assert_eq!(ConfFormat::Plain.name(), "plain");
    assert_eq!(ConfFormat::Toml.name(), "toml");
}

#[test]
fn has_variant_checks_members() {
    let p = package("worker", &["fast"], service_spec(user(None, false), Vec::new()));
    assert!(p.has_variant("fast"));
    assert!(!p.has_variant("slow"));
}

#[test]
fn resolving_twice_gives_same_names() {
    let config = vec![
        ("a.conf".to_string(), dynamic_conf(Vec::new(), evar_refs(&["shared", "db"]))),
        ("b.conf".to_string(), dynamic_conf(Vec::new(), evar_refs(&["db", "shared"]))),
    ];
    let p = package("web-extra", &[], confext_spec("shared", config));
    let first = p.load_includes(|n: &str| package(n, &[], confext_spec("x", Vec::new())));
    let second = p.load_includes(|n: &str| package(n, &[], confext_spec("x", Vec::new())));
    let a: Vec<&str> = first.iter().map(|d| d.0.as_str()).collect();
    let b: Vec<&str> = second.iter().map(|d| d.0.as_str()).collect();
    assert_eq!(a, vec!["shared", "db"]);
    assert_eq!(a, b);
}
