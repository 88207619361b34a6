//! The wrapped host function, as the entry-point model runs it: a small
//! total description of what host code does with its bound arguments.  Host
//! code is arbitrary in the real system; here it is data, so that a native
//! entry point's behaviour — including a host-side failure — is a function
//! of the call alone and can be proved end to end.

use crate::errors::{ErrVal, ErrorKind, ErrorValue};
use crate::values::{HostV, HostVal, host_vals_view};
use vstd::prelude::*;
use vstd::string::*;

verus! {

/// Mathematical model of a [`HostExpr`].
pub enum HostExprV {
    GetArgV(int),
    ConstIntV(int),
    AddConstV(int, int),
    AddArgsV(int, int),
    RaiseV(ErrorKind, Seq<char>),
}

/// What a wrapped host function does with its bound argument tuple.
pub enum HostExpr {
    /// Return bound argument `i` unchanged.
    GetArg(usize),
    /// Return this constant integer.
    ConstInt(i64),
    /// Return integer argument `i` plus a constant.
    AddConst(usize, i64),
    /// Return the sum of integer arguments `i` and `j`.
    AddArgs(usize, usize),
    /// Fail with an error of this class and text.
    Raise(ErrorKind, String),
}

impl View for HostExpr {
    type V = HostExprV;

    open spec fn view(&self) -> HostExprV {
        match self {
            HostExpr::GetArg(i) => HostExprV::GetArgV(*i as int),
            HostExpr::ConstInt(c) => HostExprV::ConstIntV(*c as int),
            HostExpr::AddConst(i, c) => HostExprV::AddConstV(*i as int, *c as int),
            HostExpr::AddArgs(i, j) => HostExprV::AddArgsV(*i as int, *j as int),
            HostExpr::Raise(k, m) => HostExprV::RaiseV(*k, m@),
        }
    }
}

/// The integer value of bound argument `i`, where it exists and is an
/// integer.
pub open spec fn arg_int(env: Seq<HostV>, i: int) -> Option<int> {
    if 0 <= i < env.len() {
        match env[i] {
            HostV::IntV(v) => Some(v),
            _ => None,
        }
    } else {
        None
    }
}

/// The error a host body yields on an argument reference that is out of
/// range or not an integer.
pub open spec fn bad_arg_err() -> ErrVal {
    ErrVal { kind: ErrorKind::TypeError, message: "host function used a missing or non-integer argument"@ }
}

/// The error a host body yields when integer arithmetic leaves the
/// representable range.
pub open spec fn overflow_err() -> ErrVal {
    ErrVal { kind: ErrorKind::OverflowError, message: "integer overflow in host function"@ }
}

/// What running a host body on a bound argument tuple yields: the host
/// result value, or the host-side error.
pub open spec fn eval_v(env: Seq<HostV>, e: HostExprV) -> Result<HostV, ErrVal> {
    match e {
        HostExprV::GetArgV(i) => if 0 <= i < env.len() {
            Ok(env[i])
        } else {
            Err(bad_arg_err())
        },
        HostExprV::ConstIntV(c) => Ok(HostV::IntV(c)),
        HostExprV::AddConstV(i, c) => match arg_int(env, i) {
            Some(a) => if i64::MIN <= a + c <= i64::MAX {
                Ok(HostV::IntV(a + c))
            } else {
                Err(overflow_err())
            },
            None => Err(bad_arg_err()),
        },
        HostExprV::AddArgsV(i, j) => match (arg_int(env, i), arg_int(env, j)) {
            (Some(a), Some(b)) => if i64::MIN <= a + b <= i64::MAX {
                Ok(HostV::IntV(a + b))
            } else {
                Err(overflow_err())
            },
            _ => Err(bad_arg_err()),
        },
        HostExprV::RaiseV(k, m) => Err(ErrVal { kind: k, message: m }),
    }
}

/// The view of a host evaluation result.
pub open spec fn eval_result_view(r: Result<HostVal, ErrorValue>) -> Result<HostV, ErrVal> {
    match r {
        Ok(v) => Ok(v@),
        Err(e) => Err(e@),
    }
}

/// Builds the error for a bad argument reference.
fn bad_arg_error() -> (r: ErrorValue)
    ensures
        r@ == bad_arg_err(),
{
    ErrorValue::new(
        ErrorKind::TypeError,
        String::from_str("host function used a missing or non-integer argument"),
    )
}

/// Reads integer argument `i`, where it exists and is an integer.
fn get_arg_int(env: &Vec<HostVal>, i: usize) -> (r: Option<i64>)
    ensures
        match r {
            Some(v) => arg_int(host_vals_view(env@), i as int) == Some(v as int),
            None => arg_int(host_vals_view(env@), i as int) is None,
        },
{
    if i < env.len() {
        match &env[i] {
            HostVal::Int(v) => Some(*v),
            _ => None,
        }
    } else {
        None
    }
}

/// Adds two host integers, yielding the host-side overflow error where the
/// sum leaves the representable range.
fn add_checked(a: i64, b: i64) -> (r: Result<HostVal, ErrorValue>)
    ensures
        eval_result_view(r) == (if i64::MIN <= a + b <= i64::MAX {
            Ok::<HostV, ErrVal>(HostV::IntV(a + b))
        } else {
            Err::<HostV, ErrVal>(overflow_err())
        }),
{
    if (b > 0 && a > i64::MAX - b) || (b < 0 && a < i64::MIN - b) {
        Err(ErrorValue::new(ErrorKind::OverflowError, String::from_str("integer overflow in host function")))
    } else {
        Ok(HostVal::Int(a + b))
    }
}

/// Runs a host body on a bound argument tuple.
pub fn eval(env: &Vec<HostVal>, e: &HostExpr) -> (r: Result<HostVal, ErrorValue>)
    ensures
        eval_result_view(r) == eval_v(host_vals_view(env@), e@),
{
    match e {
        HostExpr::GetArg(i) => {
            if *i < env.len() {
                Ok(env[*i].duplicate())
            } else {
                Err(bad_arg_error())
            }
        },
        HostExpr::ConstInt(c) => Ok(HostVal::Int(*c)),
        HostExpr::AddConst(i, c) => match get_arg_int(env, *i) {
            Some(a) => add_checked(a, *c),
            None => Err(bad_arg_error()),
        },
        HostExpr::AddArgs(i, j) => match (get_arg_int(env, *i), get_arg_int(env, *j)) {
            (Some(a), Some(b)) => add_checked(a, b),
            _ => Err(bad_arg_error()),
        },
        HostExpr::Raise(k, m) => Err(ErrorValue::new(*k, String::from_str(m.as_str()))),
    }
}

} // verus!
