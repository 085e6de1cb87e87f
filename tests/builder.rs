use javy_codegen::codegen::{CodeGen, CodeGenBuilder, CodeGenType, PROVIDER_NAMESPACE_PREFIX};
use javy_codegen::wit::{ConfigError, WitOptions};

#[test]
fn static_build_needs_no_provider_version() {
    let mut b = CodeGenBuilder::new();
    b.source_compression(true);
    let g = b.build(CodeGenType::Static).unwrap();
    assert_eq!(g.classify(), CodeGenType::Static);
    match g {
        CodeGen::Static(s) => {
            assert!(s.source_compression);
            assert!(!s.wit_opts.defined());
        }
        CodeGen::Dynamic(_) => panic!("expected a static strategy"),
    }
}

#[test]
fn static_build_transfers_wit_options() {
    let opts = WitOptions::from_tuple((Some("a.wit".to_string()), Some("w".to_string()))).unwrap();
    let mut b = CodeGenBuilder::new();
    b.wit_opts(opts).provider_version("2");
    match b.build(CodeGenType::Static).unwrap() {
        CodeGen::Static(s) => {
            assert!(!s.source_compression);
            assert_eq!(s.wit_opts.unwrap_path(), "a.wit");
            assert_eq!(s.wit_opts.unwrap_world(), "w");
        }
        CodeGen::Dynamic(_) => panic!("expected a static strategy"),
    }
}

#[test]
fn dynamic_build_without_version_fails() {
    let b = CodeGenBuilder::new();
    let r = b.build(CodeGenType::Dynamic);
    assert!(matches!(r, Err(ConfigError::ProviderVersionMissing)));
}

#[test]
fn dynamic_build_derives_namespace_from_version() {
    let mut b = CodeGenBuilder::new();
    b.provider_version("5");
    match b.build(CodeGenType::Dynamic).unwrap() {
        CodeGen::Dynamic(d) => assert_eq!(d.import_namespace, "javy_quickjs_provider_v5"),
        CodeGen::Static(_) => panic!("expected a dynamic strategy"),
    }
}

#[test]
fn dynamic_build_version_three_without_wit() {
    let mut b = CodeGenBuilder::new();
    b.provider_version("3");
    let g = b.build(CodeGenType::Dynamic).unwrap();
    assert_eq!(g.classify(), CodeGenType::Dynamic);
    match g {
        CodeGen::Dynamic(d) => {
            assert_eq!(d.import_namespace, "javy_quickjs_provider_v3");
            assert!(!d.wit_opts.defined());
        }
        CodeGen::Static(_) => panic!("expected a dynamic strategy"),
    }
}

#[test]
fn dynamic_build_keeps_wit_and_compression() {
    let opts = WitOptions::from_tuple((Some("b.wit".to_string()), Some("world".to_string()))).unwrap();
    let mut b = CodeGenBuilder::new();
    b.provider_version("12").wit_opts(opts).source_compression(true);
    match b.build(CodeGenType::Dynamic).unwrap() {
        CodeGen::Dynamic(d) => {
            assert_eq!(d.import_namespace, format!("{}12", PROVIDER_NAMESPACE_PREFIX));
            assert!(d.source_compression);
            assert!(d.wit_opts.defined());
            assert_eq!(d.wit_opts.unwrap_world(), "world");
        }
        CodeGen::Static(_) => panic!("expected a dynamic strategy"),
    }
}

#[test]
fn later_provider_version_replaces_earlier() {
    let mut b = CodeGenBuilder::new();
    b.provider_version("1").provider_version("2");
    match b.build(CodeGenType::Dynamic).unwrap() {
        CodeGen::Dynamic(d) => assert_eq!(d.import_namespace, "javy_quickjs_provider_v2"),
        CodeGen::Static(_) => panic!("expected a dynamic strategy"),
    }
}
