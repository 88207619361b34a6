use pymod::binding::{bind, bind_error_value, BindError};
use pymod::meta::{HostType, ParameterSpec};
use pymod::values::{convert, default_of, host_to_guest, GuestVal, HostVal};

fn req(name: &str, ty: HostType) -> ParameterSpec {
    ParameterSpec { name: name.to_string(), ty, optional: false }
}

fn opt(name: &str, ty: HostType) -> ParameterSpec {
    ParameterSpec { name: name.to_string(), ty, optional: true }
}

#[test]
fn binds_positional_arguments_in_order() {
    let params = vec![req("x", HostType::IntTy), req("s", HostType::TextTy)];
    let args = vec![GuestVal::Int(3), GuestVal::Text("hi".to_string())];
    let r = bind(&params, &args, &None).unwrap();
    assert_eq!(r, vec![HostVal::Int(3), HostVal::Text("hi".to_string())]);
}

#[test]
fn binds_keyword_arguments_by_name() {
    let params = vec![req("x", HostType::IntTy), req("y", HostType::IntTy)];
    let args = vec![];
    let kwargs = Some(vec![
        ("y".to_string(), GuestVal::Int(2)),
        ("x".to_string(), GuestVal::Int(1)),
    ]);
    let r = bind(&params, &args, &kwargs).unwrap();
    assert_eq!(r, vec![HostVal::Int(1), HostVal::Int(2)]);
}

#[test]
fn binds_mixed_positional_and_keyword() {
    let params = vec![req("x", HostType::IntTy), req("y", HostType::IntTy)];
    let args = vec![GuestVal::Int(10)];
    let kwargs = Some(vec![("y".to_string(), GuestVal::Int(20))]);
    let r = bind(&params, &args, &kwargs).unwrap();
    assert_eq!(r, vec![HostVal::Int(10), HostVal::Int(20)]);
}

#[test]
fn omitted_optional_binds_to_empty_value() {
    let params = vec![req("x", HostType::IntTy), opt("limit", HostType::OptIntTy)];
    let args = vec![GuestVal::Int(1)];
    let r = bind(&params, &args, &None).unwrap();
    assert_eq!(r, vec![HostVal::Int(1), HostVal::OptInt(None)]);
}

#[test]
fn supplied_optional_binds_to_its_value() {
    let params = vec![opt("limit", HostType::OptIntTy)];
    let args = vec![];
    let kwargs = Some(vec![("limit".to_string(), GuestVal::Int(9))]);
    let r = bind(&params, &args, &kwargs).unwrap();
    assert_eq!(r, vec![HostVal::OptInt(Some(9))]);
}

#[test]
fn missing_required_names_exactly_that_parameter() {
    let params = vec![req("x", HostType::IntTy), req("y", HostType::IntTy)];
    let args = vec![GuestVal::Int(1)];
    match bind(&params, &args, &None) {
        Err(BindError::MissingRequired(n)) => assert_eq!(n, "y"),
        other => panic!("expected missing-required error, got {:?}", other.is_ok()),
    }
}

#[test]
fn too_many_positional_is_rejected() {
    let params = vec![req("x", HostType::IntTy)];
    let args = vec![GuestVal::Int(1), GuestVal::Int(2)];
    match bind(&params, &args, &None) {
        Err(BindError::TooManyPositional) => {}
        _ => panic!("expected too-many-positional error"),
    }
}

#[test]
fn unexpected_keyword_is_rejected() {
    let params = vec![req("x", HostType::IntTy)];
    let args = vec![GuestVal::Int(1)];
    let kwargs = Some(vec![("z".to_string(), GuestVal::Int(2))]);
    match bind(&params, &args, &kwargs) {
        Err(BindError::UnexpectedKeyword(n)) => assert_eq!(n, "z"),
        _ => panic!("expected unexpected-keyword error"),
    }
}

#[test]
fn keyword_for_positionally_bound_parameter_is_rejected() {
    let params = vec![req("x", HostType::IntTy)];
    let args = vec![GuestVal::Int(1)];
    let kwargs = Some(vec![("x".to_string(), GuestVal::Int(2))]);
    match bind(&params, &args, &kwargs) {
        Err(BindError::ArgumentGivenTwice(n)) => assert_eq!(n, "x"),
        _ => panic!("expected given-twice error"),
    }
}

#[test]
fn wrong_type_names_parameter_and_expected_type() {
    let params = vec![req("x", HostType::IntTy)];
    let args = vec![GuestVal::Text("three".to_string())];
    match bind(&params, &args, &None) {
        Err(BindError::WrongType(n, ty)) => {
            assert_eq!(n, "x");
            assert_eq!(ty, HostType::IntTy);
        }
        _ => panic!("expected wrong-type error"),
    }
}

#[test]
fn binding_error_messages_name_function_and_argument() {
    let missing = bind_error_value("add_one", &BindError::MissingRequired("x".to_string()));
    assert_eq!(missing.message, "add_one() missing required argument 'x'");
    let unexpected =
        bind_error_value("add_one", &BindError::UnexpectedKeyword("z".to_string()));
    assert_eq!(
        unexpected.message,
        "add_one() got an unexpected keyword argument 'z'"
    );
    let toomany = bind_error_value("add_one", &BindError::TooManyPositional);
    assert_eq!(toomany.message, "add_one() takes too many positional arguments");
    let wrong = bind_error_value(
        "add_one",
        &BindError::WrongType("x".to_string(), HostType::IntTy),
    );
    assert_eq!(wrong.message, "add_one() argument 'x' expected int");
}

#[test]
fn conversion_and_defaults_follow_declared_types() {
    assert_eq!(
        convert(&GuestVal::Int(4), HostType::IntTy),
        Some(HostVal::Int(4))
    );
    assert_eq!(convert(&GuestVal::NoneVal, HostType::IntTy), None);
    assert_eq!(
        convert(&GuestVal::NoneVal, HostType::OptTextTy),
        Some(HostVal::OptText(None))
    );
    assert_eq!(default_of(HostType::TextTy), HostVal::Text(String::new()));
    assert_eq!(
        host_to_guest(HostVal::OptInt(Some(7))),
        GuestVal::Int(7)
    );
    assert_eq!(host_to_guest(HostVal::OptInt(None)), GuestVal::NoneVal);
}
