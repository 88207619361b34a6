//! Native entry points, as the synthesizer shapes them: the fixed-signature
//! function callback (receiver, args, kwargs → object or null) and the
//! module-initializer state machine.  The boundary contract holds on every
//! exit: a null return and a set error slot come together or not at all, and
//! the unwind guard is defused exactly once on every controlled path.

use crate::binding::{bind, bind_error_value, bind_err_text, bind_v, opt_kw_view};
use crate::errors::{ErrVal, ErrorKind, ErrorValue};
use crate::hostfn::eval_v;
use crate::hostfn::eval;
use crate::module::PyModule;
use crate::runtime::{CallbackGuard, GilToken, ObjData, ObjV, Runtime, RuntimeV};
use crate::values::{GuestVal, guest_vals_view, host_to_guest, host_to_guest_v};
use vstd::prelude::*;
use vstd::string::*;

verus! {

/// The view of an optional heap index.
pub open spec fn opt_id_view(r: Option<usize>) -> Option<int> {
    match r {
        Some(i) => Some(i as int),
        None => None,
    }
}

/// What one native function entry point does: bind the call's arguments
/// against the function's declared parameters, run the wrapped host body on
/// the bound tuple, convert the host result into a fresh guest object — and
/// on any failure deposit the error into the guest slot exactly once and
/// yield the null sentinel instead.
pub open spec fn entry_v(
    rtv: RuntimeV,
    fid: int,
    args: Seq<crate::values::GuestV>,
    ks: Seq<(Seq<char>, crate::values::GuestV)>,
) -> (RuntimeV, Option<int>) {
    match rtv.objects[fid] {
        ObjV::FunctionV { func, body } => match bind_v(func.params, args, ks) {
            Err(be) => (
                RuntimeV {
                    error_slot: Some(
                        ErrVal {
                            kind: ErrorKind::TypeError,
                            message: bind_err_text(func.host_name, be),
                        },
                    ),
                    ..rtv
                },
                None,
            ),
            Ok(vals) => match eval_v(vals, body) {
                Err(e) => (RuntimeV { error_slot: Some(e), ..rtv }, None),
                Ok(hv) => (
                    RuntimeV {
                        objects: rtv.objects.push(ObjV::ValueV(host_to_guest_v(hv))),
                        ..rtv
                    },
                    Some(rtv.objects.len() as int),
                ),
            },
        },
        _ => (rtv, None),
    }
}

/// Runs a native function entry point: the guest calls with the lock held
/// and a clear error slot; the entry point returns a fresh object, or null
/// with the error deposited.  The unwind guard spans the whole call and is
/// defused on every exit.
pub fn run_entry_point(
    rt: &mut Runtime,
    tok: &GilToken,
    fid: usize,
    args: &Vec<GuestVal>,
    kwargs: &Option<Vec<(String, GuestVal)>>,
) -> (r: Option<usize>)
    requires
        old(rt)@.wf(),
        fid < old(rt)@.objects.len(),
        old(rt)@.objects[fid as int] is FunctionV,
        old(rt)@.error_slot is None,
    ensures
        final(rt)@.wf(),
        final(rt)@.loaded == old(rt)@.loaded,
        final(rt)@.types == old(rt)@.types,
        (r is None) <==> (final(rt)@.error_slot is Some),
        ({
            let (rt2, ret) = entry_v(
                old(rt)@,
                fid as int,
                guest_vals_view(args@),
                opt_kw_view(*kwargs),
            );
            final(rt)@ == rt2 && opt_id_view(r) == ret
        }),
{
    let ghost rv0 = rt@;
    // The location tag names the wrapped function for diagnostics.
    let loc: String = match &rt.objects[fid] {
        ObjData::Function { func, .. } => String::from_str(func.host_name.as_str()).concat("()"),
        _ => {
            proof {
                assert(false);
            }
            String::new()
        },
    };
    let guard = CallbackGuard::arm(loc);
    let step: Result<crate::values::HostVal, ErrorValue> = match &rt.objects[fid] {
        ObjData::Function { func, body } => match bind(&func.params, args, kwargs) {
            Err(be) => Err(bind_error_value(func.host_name.as_str(), &be)),
            Ok(vals) => eval(&vals, body),
        },
        _ => {
            proof {
                assert(false);
            }
            Err(ErrorValue::new(ErrorKind::SystemError, String::new()))
        },
    };
    match step {
        Err(e) => {
            rt.restore(tok, e);
            guard.defuse();
            None
        },
        Ok(hv) => {
            let gv = host_to_guest(hv);
            let id = rt.allocate(tok, ObjData::Value(gv));
            guard.defuse();
            Some(id)
        },
    }
}

/// A call that fails to bind never reaches the wrapped host body: the entry
/// point's outcome is the null sentinel with exactly the binding error in
/// the slot, and the heap is untouched — whatever the body would have done.
pub proof fn lemma_failed_binding_never_invokes(
    rtv: RuntimeV,
    fid: int,
    args: Seq<crate::values::GuestV>,
    ks: Seq<(Seq<char>, crate::values::GuestV)>,
)
    requires
        0 <= fid < rtv.objects.len(),
        rtv.objects[fid] is FunctionV,
        (match rtv.objects[fid] {
            ObjV::FunctionV { func, .. } => bind_v(func.params, args, ks) is Err,
            _ => false,
        }),
    ensures
        ({
            let (rt2, ret) = entry_v(rtv, fid, args, ks);
            &&& ret is None
            &&& rt2.objects == rtv.objects
            &&& match (rtv.objects[fid], bind_v(
                (match rtv.objects[fid] {
                    ObjV::FunctionV { func, .. } => func,
                    _ => arbitrary(),
                }).params,
                args,
                ks,
            )) {
                (ObjV::FunctionV { func, .. }, Err(be)) => rt2.error_slot == Some(
                    ErrVal {
                        kind: ErrorKind::TypeError,
                        message: bind_err_text(func.host_name, be),
                    },
                ),
                _ => false,
            }
        }),
{
}

/// A module initialization in flight: the module object has been allocated
/// and wrapped, the init body is populating it, and the armed guard spans
/// the whole initializer until the final return value is decided.
pub struct InitSession {
    /// The guard armed when the initializer entry point was entered.
    pub guard: CallbackGuard,
    /// The wrapper handle the init body registers functions and classes
    /// through.
    pub module: PyModule,
}

/// Begins a module initializer: allocates the module object and wraps it.
/// Where allocation fails, the initializer is already decided — the error
/// goes into the slot and the caller returns the null sentinel without ever
/// running the init body.
pub fn init_start(rt: &mut Runtime, tok: &GilToken, modname: &str) -> (r: Result<InitSession, ()>)
    requires
        old(rt)@.wf(),
        old(rt)@.error_slot is None,
    ensures
        final(rt)@.wf(),
        final(rt)@.loaded == old(rt)@.loaded,
        final(rt)@.types == old(rt)@.types,
        match r {
            Ok(s) => !modname@.contains('\0') && final(rt)@.error_slot is None && s.module.id
                as int == old(rt)@.objects.len() + 1 && final(rt)@.is_module(s.module.id as int)
                && final(rt)@.module_name(s.module.id as int) == modname@ && final(rt)@.module_attrs(s.module.id as int) == Seq::<(Seq<char>, int)>::empty() && final(rt)@.objects == old(rt)@.objects.push(ObjV::DictV(Seq::<(Seq<char>, int)>::empty())).push(
                ObjV::ModuleV {
                    name: modname@,
                    filename: None,
                    dict: old(rt)@.objects.len() as int,
                },
            ),
            Err(_) => modname@.contains('\0') && final(rt)@.error_slot is Some && final(rt)@.objects == old(rt)@.objects,
        },
{
    let guard = CallbackGuard::arm(String::from_str("module initializer"));
    match PyModule::new(rt, tok, modname) {
        Ok(m) => Ok(InitSession { guard, module: m }),
        Err(e) => {
            rt.restore(tok, e);
            guard.defuse();
            Err(())
        },
    }
}

/// Finishes a module initializer with the init body's outcome.  Success
/// installs the module in the import registry and returns its pointer with
/// the slot clear; failure deposits the body's error and returns the null
/// sentinel, leaving the registry untouched — a partially populated module
/// is never exposed as a successful import.  Either way the session's guard
/// is defused, and null is returned exactly when the slot is set.
pub fn init_finish(
    rt: &mut Runtime,
    tok: &GilToken,
    session: InitSession,
    body_result: Result<(), ErrorValue>,
) -> (r: Option<usize>)
    requires
        old(rt)@.wf(),
        old(rt)@.is_module(session.module.id as int),
        body_result is Ok ==> old(rt)@.error_slot is None,
    ensures
        final(rt)@.wf(),
        final(rt)@.objects == old(rt)@.objects,
        final(rt)@.types == old(rt)@.types,
        (r is None) <==> (final(rt)@.error_slot is Some),
        match body_result {
            Ok(_) => r == Some(session.module.id) && final(rt)@.error_slot is None && final(rt)@.loaded == old(rt)@.loaded.push(
                (old(rt)@.module_name(session.module.id as int), session.module.id as int),
            ),
            Err(e) => r is None && final(rt)@.error_slot == Some(e@) && final(rt)@.loaded == old(
                rt,
            )@.loaded,
        },
{
    let InitSession { guard, module } = session;
    match body_result {
        Ok(_) => {
            let name = match module.name(rt, tok) {
                Ok(n) => n,
                Err(_) => {
                    proof {
                        assert(false);
                    }
                    String::new()
                },
            };
            rt.loaded.push((name, module.id));
            proof {
                let nv = rt@;
                let ov = old(rt)@;
                assert(nv.loaded =~= ov.loaded.push(
                    (ov.module_name(module.id as int), module.id as int),
                ));
                assert forall|l: int| 0 <= l < nv.loaded.len() implies 0 <= nv.loaded[l].1
                    < nv.objects.len() && nv.objects[nv.loaded[l].1] is ModuleV by {
                    if l < ov.loaded.len() {
                        assert(ov.loaded[l] == nv.loaded[l]);
                    }
                }
                assert forall|i: int| 0 <= i < nv.objects.len() implies nv.obj_wf(i) by {
                    assert(ov.obj_wf(i));
                }
                assert forall|t: int| 0 <= t < nv.types.len() implies match (
                #[trigger] nv.types[t]).type_obj {
                    Some(o) => nv.types[t].ready && 0 <= o < nv.objects.len()
                        && nv.objects[o] is TypeObjV,
                    None => !nv.types[t].ready,
                } by {
                    assert(match (ov.types[t]).type_obj {
                        Some(o) => ov.types[t].ready && 0 <= o < ov.objects.len()
                            && ov.objects[o] is TypeObjV,
                        None => !ov.types[t].ready,
                    });
                }
            }
            guard.defuse();
            Some(module.id)
        },
        Err(e) => {
            rt.restore(tok, e);
            guard.defuse();
            None
        },
    }
}

/// Where the first index of a module name in the import registry is.
proof fn lemma_registry_props(rtv: RuntimeV, name: Seq<char>, j: int)
    requires
        0 <= j,
    ensures
        match rtv.registry_lookup_from(name, j) {
            Some(id) => exists|l: int|
                j <= l < rtv.loaded.len() && rtv.loaded[l] == (name, id) && forall|k: int|
                    j <= k < l ==> (#[trigger] rtv.loaded[k]).0 != name,
            None => forall|k: int| j <= k < rtv.loaded.len() ==> (#[trigger] rtv.loaded[k]).0 != name,
        },
    decreases rtv.loaded.len() - j,
{
    if 0 <= j < rtv.loaded.len() {
        if rtv.loaded[j].0 == name {
            assert(rtv.loaded[j] == (name, rtv.loaded[j].1));
        } else {
            lemma_registry_props(rtv, name, j + 1);
        }
    }
}

/// The round trip of a module's name: in the state a successful initializer
/// leaves — the fresh module appended to an import registry that did not
/// yet hold its name — importing that name finds exactly the initialized
/// module, and the module's stored name is the name the init declaration's
/// annotation gave.
pub proof fn lemma_init_name_round_trip(rtv: RuntimeV, mid: int, modname: Seq<char>)
    requires
        rtv.is_module(mid),
        rtv.module_name(mid) == modname,
        rtv.loaded.len() > 0,
        rtv.loaded.last() == (modname, mid),
        forall|l: int| 0 <= l < rtv.loaded.len() - 1 ==> (#[trigger] rtv.loaded[l]).0 != modname,
    ensures
        rtv.registry_lookup(modname) == Some(mid),
        rtv.module_name(match rtv.registry_lookup(modname) {
            Some(id) => id,
            None => 0,
        }) == modname,
{
    lemma_registry_props(rtv, modname, 0);
    match rtv.registry_lookup_from(modname, 0) {
        Some(id) => {
            let l = choose|l: int|
                0 <= l < rtv.loaded.len() && rtv.loaded[l] == (modname, id) && forall|k: int|
                    0 <= k < l ==> (#[trigger] rtv.loaded[k]).0 != modname;
            if l < rtv.loaded.len() - 1 {
                assert(rtv.loaded[l].0 != modname);
            }
            assert(l == rtv.loaded.len() - 1);
            assert(id == mid);
        },
        None => {
            assert(rtv.loaded[rtv.loaded.len() - 1].0 != modname);
        },
    }
}

} // verus!
