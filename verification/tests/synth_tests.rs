use pymod::meta::HostType;
use pymod::synth::{
    build_py2_module_init, build_py3_module_init, impl_wrap, py2_init, py3_init, wrap_fn, AbiGen,
    Annotation, FnDecl, FnInput, GenError, InitFnDecl, ItemDecl, PyFnAnnotation, TypeDecl,
};

fn add_one_decl() -> FnDecl {
    FnDecl {
        name: "add_one".to_string(),
        annotations: vec![Annotation::PyFn(PyFnAnnotation {
            module: Some("demo".to_string()),
            exported: Some("add_one".to_string()),
        })],
        inputs: vec![
            FnInput::Named("py".to_string(), TypeDecl::TokenTy),
            FnInput::Named("x".to_string(), TypeDecl::Host(HostType::IntTy)),
        ],
        doc: "adds one".to_string(),
    }
}

#[test]
fn wrap_fn_extracts_the_specification() {
    let reg = wrap_fn(&add_one_decl()).unwrap().unwrap();
    assert_eq!(reg.module, "demo");
    assert_eq!(reg.func.host_name, "add_one");
    assert_eq!(reg.func.exported, "add_one");
    assert!(reg.func.takes_token);
    assert_eq!(reg.func.params.len(), 1);
    assert_eq!(reg.func.params[0].name, "x");
    assert_eq!(reg.func.params[0].ty, HostType::IntTy);
    assert!(!reg.func.params[0].optional);
}

#[test]
fn wrap_fn_skips_unmarked_declarations() {
    let mut d = add_one_decl();
    d.annotations = vec![Annotation::Other("inline".to_string())];
    assert!(wrap_fn(&d).unwrap().is_none());
}

#[test]
fn wrap_fn_skips_incomplete_markers() {
    let mut d = add_one_decl();
    d.annotations = vec![Annotation::PyFn(PyFnAnnotation {
        module: Some("demo".to_string()),
        exported: None,
    })];
    assert!(wrap_fn(&d).unwrap().is_none());
}

#[test]
fn repeated_marker_is_a_conflict() {
    let mut d = add_one_decl();
    let again = Annotation::PyFn(PyFnAnnotation {
        module: Some("demo".to_string()),
        exported: Some("other".to_string()),
    });
    d.annotations.push(again);
    match wrap_fn(&d) {
        Err(GenError::ConflictingAnnotations(n)) => assert_eq!(n, "add_one"),
        _ => panic!("expected a conflict error"),
    }
}

#[test]
fn ignored_parameter_is_unsupported() {
    let mut d = add_one_decl();
    d.inputs.push(FnInput::Ignored);
    match wrap_fn(&d) {
        Err(GenError::UnsupportedPattern(n)) => assert_eq!(n, "add_one"),
        _ => panic!("expected an unsupported-pattern error"),
    }
}

#[test]
fn unclassifiable_parameter_names_itself() {
    let mut d = add_one_decl();
    d.inputs.push(FnInput::Named("weird".to_string(), TypeDecl::Unclassifiable));
    match wrap_fn(&d) {
        Err(GenError::Unclassifiable(n)) => assert_eq!(n, "weird"),
        _ => panic!("expected an unclassifiable error"),
    }
}

#[test]
fn optional_flag_follows_type_shape() {
    let mut d = add_one_decl();
    d.inputs.push(FnInput::Named(
        "limit".to_string(),
        TypeDecl::Host(HostType::OptIntTy),
    ));
    let reg = wrap_fn(&d).unwrap().unwrap();
    assert_eq!(reg.func.params.len(), 2);
    assert!(reg.func.params[1].optional);
}

#[test]
fn init_symbols_follow_each_generation() {
    let p3 = py3_init("initmod", "demo");
    assert_eq!(p3.symbol, "PyInit_demo");
    assert_eq!(p3.module_name, "demo");
    assert_eq!(p3.init_fn, "initmod");
    assert_eq!(p3.abi, AbiGen::Py3);

    let p2 = py2_init("initmod", "demo");
    assert_eq!(p2.symbol, "initdemo");
    assert_eq!(p2.abi, AbiGen::Py2);
}

#[test]
fn impl_wrap_plans_location_and_method_entry() {
    let reg = wrap_fn(&add_one_decl()).unwrap().unwrap();
    let w = impl_wrap("add_one", &reg.func);
    assert_eq!(w.location, "add_one()");
    assert_eq!(w.ml_name, "add_one");
    assert_eq!(w.ml_doc, "adds one");
}

#[test]
fn build_walks_the_init_body() {
    let mut plain = add_one_decl();
    plain.name = "helper".to_string();
    plain.annotations = vec![];
    let item = ItemDecl::FnItem(InitFnDecl {
        name: "initmod".to_string(),
        body_fns: vec![add_one_decl(), plain],
        doc: String::new(),
    });
    let plan = build_py3_module_init(&item, "demo").unwrap();
    assert_eq!(plan.init.symbol, "PyInit_demo");
    assert_eq!(plan.registrations.len(), 1);
    assert_eq!(plan.registrations[0].func.exported, "add_one");

    let plan2 = build_py2_module_init(&item, "demo").unwrap();
    assert_eq!(plan2.init.symbol, "initdemo");
    assert_eq!(plan2.registrations.len(), 1);
}

#[test]
fn build_rejects_non_function_items() {
    match build_py3_module_init(&ItemDecl::OtherItem, "demo") {
        Err(GenError::NotAFunction) => {}
        _ => panic!("expected a not-a-function error"),
    }
}

#[test]
fn build_propagates_generation_errors() {
    let mut bad = add_one_decl();
    bad.inputs.push(FnInput::Ignored);
    let item = ItemDecl::FnItem(InitFnDecl {
        name: "initmod".to_string(),
        body_fns: vec![bad],
        doc: String::new(),
    });
    match build_py3_module_init(&item, "demo") {
        Err(GenError::UnsupportedPattern(n)) => assert_eq!(n, "add_one"),
        _ => panic!("expected the walk to propagate the error"),
    }
}
