use pymod::entry::{init_finish, init_start, run_entry_point};
use pymod::errors::{ErrorKind, ErrorValue};
use pymod::hostfn::HostExpr;
use pymod::meta::{FnKind, FunctionSpec, HostType, ParameterSpec};
use pymod::module::PyModule;
use pymod::runtime::{GilToken, ObjData, Runtime, TypeDescriptor};
use pymod::values::GuestVal;

fn add_one_spec() -> FunctionSpec {
    FunctionSpec {
        kind: FnKind::Free,
        host_name: "add_one".to_string(),
        exported: "add_one".to_string(),
        params: vec![ParameterSpec {
            name: "x".to_string(),
            ty: HostType::IntTy,
            optional: false,
        }],
        takes_token: false,
        doc: String::new(),
    }
}

fn demo_module(rt: &mut Runtime, tok: &GilToken) -> PyModule {
    let sess = init_start(rt, tok, "demo").unwrap();
    let mid = sess.module.id;
    let m = PyModule { id: mid };
    let fid = rt.allocate(
        tok,
        ObjData::Function { func: add_one_spec(), body: HostExpr::AddConst(0, 1) },
    );
    m.add(rt, tok, "add_one", fid).unwrap();
    let ret = init_finish(rt, tok, sess, Ok(()));
    assert_eq!(ret, Some(mid));
    m
}

#[test]
fn add_one_scenario() {
    let mut rt = Runtime::boot();
    let tok = GilToken::assume_held();
    demo_module(&mut rt, &tok);
    let demo = PyModule::import(&rt, &tok, "demo").unwrap();

    // demo.add_one(x=5) returns 6
    let kwargs = Some(vec![("x".to_string(), GuestVal::Int(5))]);
    let r = demo.call(&mut rt, &tok, "add_one", &vec![], &kwargs).unwrap();
    match &rt.objects[r.id] {
        ObjData::Value(GuestVal::Int(v)) => assert_eq!(*v, 6),
        _ => panic!("expected an integer result object"),
    }

    // demo.add_one() raises a missing-argument error naming x
    let e = demo
        .call(&mut rt, &tok, "add_one", &vec![], &None)
        .unwrap_err();
    assert_eq!(e.kind, ErrorKind::TypeError);
    assert_eq!(e.message, "add_one() missing required argument 'x'");

    // demo.add_one(1, 2) raises an unexpected-argument error
    let e = demo
        .call(
            &mut rt,
            &tok,
            "add_one",
            &vec![GuestVal::Int(1), GuestVal::Int(2)],
            &None,
        )
        .unwrap_err();
    assert_eq!(e.kind, ErrorKind::TypeError);
    assert_eq!(e.message, "add_one() takes too many positional arguments");
}

#[test]
fn entry_point_null_iff_error_slot_set() {
    let mut rt = Runtime::boot();
    let tok = GilToken::assume_held();
    let good = rt.allocate(
        &tok,
        ObjData::Function { func: add_one_spec(), body: HostExpr::AddConst(0, 1) },
    );
    let bad = rt.allocate(
        &tok,
        ObjData::Function {
            func: add_one_spec(),
            body: HostExpr::Raise(ErrorKind::ValueError, "host failure".to_string()),
        },
    );

    let args = vec![GuestVal::Int(1)];
    let r = run_entry_point(&mut rt, &tok, good, &args, &None);
    assert!(r.is_some());
    assert!(!rt.error_pending(&tok));

    let r = run_entry_point(&mut rt, &tok, bad, &args, &None);
    assert!(r.is_none());
    assert!(rt.error_pending(&tok));
    let e = rt.fetch(&tok);
    assert_eq!(e.kind, ErrorKind::ValueError);
    assert_eq!(e.message, "host failure");
    assert!(!rt.error_pending(&tok));

    // A binding failure also deposits exactly once, and the heap stays as
    // it was.
    let before = rt.objects.len();
    let r = run_entry_point(&mut rt, &tok, good, &vec![], &None);
    assert!(r.is_none());
    assert!(rt.error_pending(&tok));
    assert_eq!(rt.objects.len(), before);
    rt.fetch(&tok);
}

#[test]
fn host_overflow_becomes_guest_error() {
    let mut rt = Runtime::boot();
    let tok = GilToken::assume_held();
    let fid = rt.allocate(
        &tok,
        ObjData::Function { func: add_one_spec(), body: HostExpr::AddConst(0, 1) },
    );
    let r = run_entry_point(&mut rt, &tok, fid, &vec![GuestVal::Int(i64::MAX)], &None);
    assert!(r.is_none());
    let e = rt.fetch(&tok);
    assert_eq!(e.kind, ErrorKind::OverflowError);
    assert_eq!(e.message, "integer overflow in host function");
}

#[test]
fn module_name_round_trip() {
    let mut rt = Runtime::boot();
    let tok = GilToken::assume_held();
    demo_module(&mut rt, &tok);
    let demo = PyModule::import(&rt, &tok, "demo").unwrap();
    assert_eq!(demo.name(&rt, &tok).unwrap(), "demo");
}

#[test]
fn new_module_rejects_embedded_nul() {
    let mut rt = Runtime::boot();
    let tok = GilToken::assume_held();
    let e = PyModule::new(&mut rt, &tok, "bad\0name").unwrap_err();
    assert_eq!(e.kind, ErrorKind::ValueError);
    assert_eq!(e.message, "module name contains an embedded nul character");
    assert!(PyModule::new(&mut rt, &tok, "fine").is_ok());
}

#[test]
fn import_of_unknown_module_fails() {
    let rt = Runtime::boot();
    let tok = GilToken::assume_held();
    let e = PyModule::import(&rt, &tok, "nowhere").unwrap_err();
    assert_eq!(e.kind, ErrorKind::ImportError);
    assert_eq!(e.message, "no module named 'nowhere'");
}

#[test]
fn get_and_dict_expose_the_namespace() {
    let mut rt = Runtime::boot();
    let tok = GilToken::assume_held();
    let m = PyModule::new(&mut rt, &tok, "m").unwrap();
    let vid = rt.allocate(&tok, ObjData::Value(GuestVal::Int(42)));
    m.add(&mut rt, &tok, "answer", vid).unwrap();

    let h = m.get(&rt, &tok, "answer").unwrap();
    assert_eq!(h.id, vid);
    let b = h.as_borrowed();
    assert_eq!(b.id, vid);
    h.release(&tok);

    let e = m.get(&rt, &tok, "missing").unwrap_err();
    assert_eq!(e.kind, ErrorKind::AttributeError);
    assert_eq!(e.message, "module has no attribute 'missing'");

    let d = m.dict(&rt, &tok);
    match &rt.objects[d.id] {
        ObjData::Dict(entries) => {
            assert_eq!(entries.len(), 1);
            assert_eq!(entries[0].0, "answer");
            assert_eq!(entries[0].1, vid);
        }
        _ => panic!("expected the namespace dictionary"),
    }
}

#[test]
fn add_replaces_existing_binding() {
    let mut rt = Runtime::boot();
    let tok = GilToken::assume_held();
    let m = PyModule::new(&mut rt, &tok, "m").unwrap();
    let v1 = rt.allocate(&tok, ObjData::Value(GuestVal::Int(1)));
    let v2 = rt.allocate(&tok, ObjData::Value(GuestVal::Int(2)));
    m.add(&mut rt, &tok, "a", v1).unwrap();
    m.add(&mut rt, &tok, "a", v2).unwrap();
    let h = m.get(&rt, &tok, "a").unwrap();
    assert_eq!(h.id, v2);
    h.release(&tok);
    match &rt.objects[m.dict(&rt, &tok).id] {
        ObjData::Dict(entries) => assert_eq!(entries.len(), 1),
        _ => panic!("expected the namespace dictionary"),
    }
}

#[test]
fn filename_bridges_null_by_the_slot_rule() {
    let mut rt = Runtime::boot();
    let tok = GilToken::assume_held();
    let m = PyModule::new(&mut rt, &tok, "m").unwrap();

    // Clear slot: a descriptive error is synthesized.
    let e = m.filename(&mut rt, &tok).unwrap_err();
    assert_eq!(e.kind, ErrorKind::SystemError);
    assert_eq!(e.message, "module filename is not set");

    // Pending error: it is fetched and propagated, clearing the slot.
    rt.restore(
        &tok,
        ErrorValue::new(ErrorKind::ValueError, "pending".to_string()),
    );
    let e = m.filename(&mut rt, &tok).unwrap_err();
    assert_eq!(e.kind, ErrorKind::ValueError);
    assert_eq!(e.message, "pending");
    assert!(!rt.error_pending(&tok));
}

#[test]
fn calling_a_non_callable_attribute_fails() {
    let mut rt = Runtime::boot();
    let tok = GilToken::assume_held();
    let m = PyModule::new(&mut rt, &tok, "m").unwrap();
    let vid = rt.allocate(&tok, ObjData::Value(GuestVal::Int(1)));
    m.add(&mut rt, &tok, "v", vid).unwrap();
    let e = m.call(&mut rt, &tok, "v", &vec![], &None).unwrap_err();
    assert_eq!(e.kind, ErrorKind::TypeError);
    assert_eq!(e.message, "attribute 'v' is not callable");
}

#[test]
fn add_class_is_idempotent_on_the_ready_flag() {
    let mut rt = Runtime::boot();
    let tok = GilToken::assume_held();
    let m = PyModule::new(&mut rt, &tok, "geom").unwrap();
    rt.types.push(TypeDescriptor {
        ty_name: "Point".to_string(),
        description: "a point".to_string(),
        ready: false,
        type_obj: None,
    });

    m.add_class(&mut rt, &tok, 0).unwrap();
    assert!(rt.types[0].ready);
    let to = rt.types[0].type_obj.unwrap();
    let objects_after_first = rt.objects.len();
    match &rt.objects[to] {
        ObjData::TypeObj { name, module } => {
            assert_eq!(name, "Point");
            assert_eq!(module, "geom");
        }
        _ => panic!("expected the type object"),
    }

    // The second registration re-runs nothing: no new object, same type
    // object bound under the same name, descriptor untouched.
    m.add_class(&mut rt, &tok, 0).unwrap();
    assert_eq!(rt.objects.len(), objects_after_first);
    assert_eq!(rt.types[0].type_obj.unwrap(), to);
    let h = m.get(&rt, &tok, "Point").unwrap();
    assert_eq!(h.id, to);
    h.release(&tok);
    match &rt.objects[m.dict(&rt, &tok).id] {
        ObjData::Dict(entries) => assert_eq!(entries.len(), 1),
        _ => panic!("expected the namespace dictionary"),
    }
}

#[test]
fn failed_init_exposes_no_module() {
    let mut rt = Runtime::boot();
    let tok = GilToken::assume_held();
    rt.types.push(TypeDescriptor {
        ty_name: "First".to_string(),
        description: String::new(),
        ready: false,
        type_obj: None,
    });

    let sess = init_start(&mut rt, &tok, "demo").unwrap();
    let mid = sess.module.id;
    let m = PyModule { id: mid };
    // The body registers its first class, then raises while registering the
    // second.
    m.add_class(&mut rt, &tok, 0).unwrap();
    let raised = ErrorValue::new(ErrorKind::TypeError, "second class broke".to_string());
    let ret = init_finish(&mut rt, &tok, sess, Err(raised));

    // Null sentinel, the raised error in the slot, and no successful import
    // of the partially populated module.
    assert_eq!(ret, None);
    assert!(rt.error_pending(&tok));
    let e = rt.fetch(&tok);
    assert_eq!(e.kind, ErrorKind::TypeError);
    assert_eq!(e.message, "second class broke");
    let e = PyModule::import(&rt, &tok, "demo").unwrap_err();
    assert_eq!(e.kind, ErrorKind::ImportError);
}

#[test]
fn init_start_rejects_bad_module_name() {
    let mut rt = Runtime::boot();
    let tok = GilToken::assume_held();
    let r = init_start(&mut rt, &tok, "bad\0name");
    assert!(r.is_err());
    assert!(rt.error_pending(&tok));
}
