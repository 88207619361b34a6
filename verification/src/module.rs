//! The module wrapper: a thin handle over a guest module object, with typed
//! accessors that translate guest null results into host error values by the
//! bridge rule — consult the error slot first, synthesize only when it is
//! clear.

use crate::binding::opt_kw_view;
use crate::entry::{entry_v, run_entry_point};
use crate::errors::{ErrVal, ErrorKind, ErrorValue};
use crate::runtime::{
    Borrowed, GilToken, ObjData, ObjV, Owned, Runtime, RuntimeV, TypeDescV,
    TypeDescriptor, dict_get, dict_index, dict_index_from, dict_set, entries_view,
    lemma_dict_index_props, lemma_dict_set_same, lemma_dict_set_wf,
};
use crate::values::{GuestVal, guest_vals_view, str_eq};
use vstd::prelude::*;
use vstd::string::*;

verus! {

/// The text of the error a module name with an embedded NUL raises.
pub open spec fn nul_name_text() -> Seq<char> {
    "module name contains an embedded nul character"@
}

/// The text of the error an unknown module name raises on import.
pub open spec fn import_err_text(name: Seq<char>) -> Seq<char> {
    "no module named '"@ + name + "'"@
}

/// The text of the error a missing attribute raises.
pub open spec fn attr_err_text(name: Seq<char>) -> Seq<char> {
    "module has no attribute '"@ + name + "'"@
}

/// The text of the error a call of a non-callable attribute raises.
pub open spec fn not_callable_text(name: Seq<char>) -> Seq<char> {
    "attribute '"@ + name + "' is not callable"@
}

/// The text of the error a module without a filename raises.
pub open spec fn no_filename_text() -> Seq<char> {
    "module filename is not set"@
}

/// Whether a string holds an embedded NUL character, which the guest's
/// C-level name primitives cannot carry.
fn contains_nul(s: &str) -> (b: bool)
    ensures
        b == s@.contains('\0'),
{
    let n = s.unicode_len();
    let mut i: usize = 0;
    while i < n
        invariant
            i <= n,
            n == s@.len(),
            forall|k: int| 0 <= k < i ==> s@[k] != '\0',
        decreases n - i,
    {
        if s.get_char(i) == '\0' {
            assert(s@[i as int] == '\0');
            return true;
        }
        i += 1;
    }
    assert(!s@.contains('\0'));
    false
}

/// First index of a name among executable dictionary entries.
fn dict_find(es: &Vec<(String, usize)>, name: &str) -> (r: Option<usize>)
    ensures
        match r {
            Some(i) => i < es@.len() && dict_index(entries_view(es@), name@) == Some(i as int),
            None => dict_index(entries_view(es@), name@) is None,
        },
{
    let ghost ev = entries_view(es@);
    let mut j: usize = 0;
    while j < es.len()
        invariant
            j <= es.len(),
            ev == entries_view(es@),
            ev.len() == es@.len(),
            dict_index(ev, name@) == dict_index_from(ev, name@, j as int),
        decreases es.len() - j,
    {
        if str_eq(es[j].0.as_str(), name) {
            assert(dict_index_from(ev, name@, j as int) == Some(j as int));
            return Some(j);
        }
        assert(dict_index_from(ev, name@, j as int) == dict_index_from(ev, name@, j as int + 1));
        j += 1;
    }
    None
}

/// The runtime after binding `name` to object `v` in module `mid`'s
/// namespace.
pub open spec fn set_module_attr(rtv: RuntimeV, mid: int, name: Seq<char>, v: int) -> RuntimeV {
    RuntimeV {
        objects: rtv.objects.update(
            rtv.module_dict(mid),
            ObjV::DictV(dict_set(rtv.module_attrs(mid), name, v)),
        ),
        ..rtv
    }
}

/// Binds a name in a module's namespace dictionary, in place.
fn set_attr_raw(rt: &mut Runtime, tok: &GilToken, mid: usize, name: &str, vid: usize)
    requires
        old(rt)@.wf(),
        old(rt)@.is_module(mid as int),
        vid < old(rt)@.objects.len(),
    ensures
        final(rt)@.wf(),
        final(rt)@ == set_module_attr(old(rt)@, mid as int, name@, vid as int),
        final(rt)@.is_module(mid as int),
        final(rt)@.module_name(mid as int) == old(rt)@.module_name(mid as int),
        final(rt)@.module_attrs(mid as int) == dict_set(
            old(rt)@.module_attrs(mid as int),
            name@,
            vid as int,
        ),
{
    let ghost rv0 = rt@;
    let did: usize = match &rt.objects[mid] {
        ObjData::Module { dict, .. } => *dict,
        _ => {
            proof {
                assert(false);
            }
            0
        },
    };
    assert(did as int == rv0.module_dict(mid as int));
    assert(rv0.obj_wf(mid as int));
    assert(rv0.obj_wf(did as int));
    let ghost oldes = rv0.dict_entries(did as int);

    // Rebuild the entry list with the binding applied: the first entry of
    // this name is replaced, or a new entry is appended.
    let mut newes: Vec<(String, usize)> = Vec::new();
    let mut replaced = false;
    match &rt.objects[did] {
        ObjData::Dict(es) => {
            let ghost ev = entries_view(es@);
            assert(ev == oldes);
            proof {
                lemma_dict_index_props(ev, name@, 0);
            }
            let mut j: usize = 0;
            while j < es.len()
                invariant
                    j <= es.len(),
                    ev == entries_view(es@),
                    ev.len() == es@.len(),
                    newes@.len() == j,
                    match dict_index(ev, name@) {
                        Some(ix) => (replaced <==> j > ix) && forall|k: int|
                            0 <= k < j ==> entries_view(newes@)[k] == (if k == ix {
                                (name@, vid as int)
                            } else {
                                ev[k]
                            }),
                        None => !replaced && forall|k: int|
                            0 <= k < j ==> entries_view(newes@)[k] == ev[k],
                    },
                decreases es.len() - j,
            {
                let ghost pre = newes@;
                proof {
                    lemma_dict_index_props(ev, name@, 0);
                }
                if !replaced && str_eq(es[j].0.as_str(), name) {
                    newes.push((String::from_str(name), vid));
                    replaced = true;
                    proof {
                        assert(ev[j as int].0 == name@);
                        match dict_index(ev, name@) {
                            Some(ix) => {
                                if (j as int) < ix {
                                    assert(ev[j as int].0 != name@);
                                }
                                assert(ix == j as int);
                                assert(entries_view(newes@)[j as int] == (name@, vid as int));
                            },
                            None => {
                                assert(false);
                            },
                        }
                    }
                } else {
                    newes.push((String::from_str(es[j].0.as_str()), es[j].1));
                    proof {
                        assert(entries_view(newes@)[j as int] == ev[j as int]);
                        match dict_index(ev, name@) {
                            Some(ix) => {
                                if ix == j as int {
                                    assert(ev[ix].0 == name@);
                                    assert(replaced);
                                    assert(false);
                                }
                            },
                            None => {},
                        }
                    }
                }
                proof {
                    match dict_index(ev, name@) {
                        Some(ix) => {
                            assert(replaced <==> j as int + 1 > ix);
                            assert forall|k: int| 0 <= k < j as int + 1 implies entries_view(
                                newes@,
                            )[k] == (if k == ix {
                                (name@, vid as int)
                            } else {
                                ev[k]
                            }) by {
                                if k < j as int {
                                    assert(newes@[k] == pre[k]);
                                    assert(entries_view(pre)[k] == (if k == ix {
                                        (name@, vid as int)
                                    } else {
                                        ev[k]
                                    }));
                                }
                            }
                        },
                        None => {
                            assert(!replaced);
                            assert forall|k: int| 0 <= k < j as int + 1 implies entries_view(
                                newes@,
                            )[k] == ev[k] by {
                                if k < j as int {
                                    assert(newes@[k] == pre[k]);
                                    assert(entries_view(pre)[k] == ev[k]);
                                }
                            }
                        },
                    }
                }
                j += 1;
            }
            proof {
                lemma_dict_index_props(ev, name@, 0);
            }
        },
        _ => {
            proof {
                assert(false);
            }
        },
    }
    if !replaced {
        newes.push((String::from_str(name), vid));
    }
    proof {
        lemma_dict_index_props(oldes, name@, 0);
        assert(entries_view(newes@) =~= dict_set(oldes, name@, vid as int));
    }
    rt.objects.set(did, ObjData::Dict(newes));
    proof {
        let nv = rt@;
        assert(nv.objects =~= rv0.objects.update(
            did as int,
            ObjV::DictV(dict_set(oldes, name@, vid as int)),
        ));
        assert(nv =~= set_module_attr(rv0, mid as int, name@, vid as int));
        lemma_dict_set_wf(
            oldes,
            name@,
            vid as int,
            rv0.objects.len() as int,
            rv0.objects.len() as int,
        );
        assert forall|i: int| 0 <= i < nv.objects.len() implies nv.obj_wf(i) by {
            assert(rv0.obj_wf(i));
        }
        assert(nv.wf());
    }
}

/// A handle on a guest module object, as the wrapper layer exposes it.
#[derive(Debug)]
pub struct PyModule {
    /// The heap index of the module object.
    pub id: usize,
}

impl PyModule {
    /// Creates a new module object with the given name and an empty
    /// namespace.  Fails exactly when the name holds an embedded NUL
    /// character, which the guest's C string primitives cannot carry.
    pub fn new(rt: &mut Runtime, tok: &GilToken, name: &str) -> (r: Result<PyModule, ErrorValue>)
        requires
            old(rt)@.wf(),
        ensures
            final(rt)@.wf(),
            final(rt)@.error_slot == old(rt)@.error_slot,
            final(rt)@.loaded == old(rt)@.loaded,
            final(rt)@.types == old(rt)@.types,
            match r {
                Ok(m) => !name@.contains('\0') && m.id as int == old(rt)@.objects.len() + 1
                    && final(rt)@.objects == old(rt)@.objects.push(
                    ObjV::DictV(Seq::<(Seq<char>, int)>::empty()),
                ).push(
                    ObjV::ModuleV {
                        name: name@,
                        filename: None,
                        dict: old(rt)@.objects.len() as int,
                    },
                ) && final(rt)@.is_module(m.id as int) && final(rt)@.module_name(m.id as int)
                    == name@ && final(rt)@.module_filename(m.id as int) is None && final(rt)@.module_attrs(m.id as int) == Seq::<(Seq<char>, int)>::empty(),
                Err(e) => name@.contains('\0') && final(rt)@.objects == old(rt)@.objects
                    && e@.kind == ErrorKind::ValueError && e@.message == nul_name_text(),
            },
    {
        if contains_nul(name) {
            return Err(
                ErrorValue::new(
                    ErrorKind::ValueError,
                    String::from_str("module name contains an embedded nul character"),
                ),
            );
        }
        let empty: Vec<(String, usize)> = Vec::new();
        proof {
            assert(entries_view(empty@) =~= Seq::<(Seq<char>, int)>::empty());
        }
        let did = rt.allocate(tok, ObjData::Dict(empty));
        let mid = rt.allocate(
            tok,
            ObjData::Module { name: String::from_str(name), filename: None, dict: did },
        );
        Ok(PyModule { id: mid })
    }

    /// Looks a module up in the import registry.  The runtime is only read:
    /// a failed import synthesizes its error without touching the slot.
    pub fn import(rt: &Runtime, tok: &GilToken, name: &str) -> (r: Result<PyModule, ErrorValue>)
        requires
            rt@.wf(),
        ensures
            match r {
                Ok(m) => rt@.registry_lookup(name@) == Some(m.id as int) && rt@.is_module(
                    m.id as int,
                ),
                Err(e) => rt@.registry_lookup(name@) is None && e@.kind == ErrorKind::ImportError
                    && e@.message == import_err_text(name@),
            },
    {
        let _ = tok;
        let ghost rv = rt@;
        let mut j: usize = 0;
        while j < rt.loaded.len()
            invariant
                j <= rt.loaded.len(),
                rv == rt@,
                rv.loaded.len() == rt.loaded@.len(),
                rv.wf(),
                rv.registry_lookup(name@) == rv.registry_lookup_from(name@, j as int),
            decreases rt.loaded.len() - j,
        {
            if str_eq(rt.loaded[j].0.as_str(), name) {
                assert(rv.registry_lookup_from(name@, j as int) == Some(rv.loaded[j as int].1));
                return Ok(PyModule { id: rt.loaded[j].1 });
            }
            assert(rv.registry_lookup_from(name@, j as int) == rv.registry_lookup_from(
                name@,
                j as int + 1,
            ));
            j += 1;
        }
        Err(
            ErrorValue::new(
                ErrorKind::ImportError,
                String::from_str("no module named '").concat(name).concat("'"),
            ),
        )
    }

    /// A borrowed handle on the module's namespace dictionary.  No ownership
    /// is transferred: the handle must not outlive the lock scope.
    pub fn dict(&self, rt: &Runtime, tok: &GilToken) -> (b: Borrowed)
        requires
            rt@.wf(),
            rt@.is_module(self.id as int),
        ensures
            b.id as int == rt@.module_dict(self.id as int),
    {
        let _ = tok;
        match &rt.objects[self.id] {
            ObjData::Module { dict, .. } => Borrowed { id: *dict },
            _ => {
                proof {
                    assert(false);
                }
                Borrowed { id: 0 }
            },
        }
    }

    /// The module's name.  Every module object in the model carries one, so
    /// this accessor never fails.
    pub fn name(&self, rt: &Runtime, tok: &GilToken) -> (r: Result<String, ErrorValue>)
        requires
            rt@.wf(),
            rt@.is_module(self.id as int),
        ensures
            match r {
                Ok(s) => s@ == rt@.module_name(self.id as int),
                Err(_) => false,
            },
    {
        let _ = tok;
        match &rt.objects[self.id] {
            ObjData::Module { name, .. } => Ok(String::from_str(name.as_str())),
            _ => {
                proof {
                    assert(false);
                }
                Err(ErrorValue::new(ErrorKind::SystemError, String::new()))
            },
        }
    }

    /// The module's filename.  A module created fresh has none; the null
    /// result is bridged by the rule: a pending guest error is fetched and
    /// propagated, otherwise a descriptive error is synthesized.
    pub fn filename(&self, rt: &mut Runtime, tok: &GilToken) -> (r: Result<String, ErrorValue>)
        requires
            old(rt)@.wf(),
            old(rt)@.is_module(self.id as int),
        ensures
            final(rt)@.wf(),
            final(rt)@.objects == old(rt)@.objects,
            final(rt)@.loaded == old(rt)@.loaded,
            final(rt)@.types == old(rt)@.types,
            match r {
                Ok(s) => old(rt)@.module_filename(self.id as int) == Some(s@) && final(rt)@.error_slot == old(rt)@.error_slot,
                Err(e) => old(rt)@.module_filename(self.id as int) is None && final(rt)@.error_slot is None && match old(rt)@.error_slot {
                    Some(p) => e@ == p,
                    None => e@.kind == ErrorKind::SystemError && e@.message == no_filename_text(),
                },
            },
    {
        let fo: Option<String> = match &rt.objects[self.id] {
            ObjData::Module { filename, .. } => match filename {
                Some(f) => Some(String::from_str(f.as_str())),
                None => None,
            },
            _ => {
                proof {
                    assert(false);
                }
                None
            },
        };
        match fo {
            Some(s) => Ok(s),
            None => {
                if rt.error_pending(tok) {
                    Err(rt.fetch(tok))
                } else {
                    Err(
                        ErrorValue::new(
                            ErrorKind::SystemError,
                            String::from_str("module filename is not set"),
                        ),
                    )
                }
            },
        }
    }

    /// Gets a member of the module by name, as an owning handle.  A missing
    /// name surfaces the guest's own attribute error as a host error value.
    pub fn get(&self, rt: &Runtime, tok: &GilToken, name: &str) -> (r: Result<Owned, ErrorValue>)
        requires
            rt@.wf(),
            rt@.is_module(self.id as int),
        ensures
            match r {
                Ok(h) => dict_get(rt@.module_attrs(self.id as int), name@) == Some(h.id as int),
                Err(e) => dict_get(rt@.module_attrs(self.id as int), name@) is None && e@.kind
                    == ErrorKind::AttributeError && e@.message == attr_err_text(name@),
            },
    {
        let _ = tok;
        let ghost rv = rt@;
        let did: usize = match &rt.objects[self.id] {
            ObjData::Module { dict, .. } => *dict,
            _ => {
                proof {
                    assert(false);
                }
                0
            },
        };
        assert(rv.obj_wf(self.id as int));
        let found: Option<usize> = match &rt.objects[did] {
            ObjData::Dict(es) => {
                match dict_find(es, name) {
                    Some(i) => Some(es[i].1),
                    None => None,
                }
            },
            _ => {
                proof {
                    assert(false);
                }
                None
            },
        };
        match found {
            Some(t) => {
                proof {
                    lemma_dict_index_props(rv.module_attrs(self.id as int), name@, 0);
                }
                Ok(Owned::claim(t))
            },
            None => Err(
                ErrorValue::new(
                    ErrorKind::AttributeError,
                    String::from_str("module has no attribute '").concat(name).concat("'"),
                ),
            ),
        }
    }

    /// Adds a member to the module's namespace under the given name,
    /// replacing any previous binding of that name.
    pub fn add(&self, rt: &mut Runtime, tok: &GilToken, name: &str, vid: usize) -> (r: Result<
        (),
        ErrorValue,
    >)
        requires
            old(rt)@.wf(),
            old(rt)@.is_module(self.id as int),
            vid < old(rt)@.objects.len(),
        ensures
            final(rt)@.wf(),
            r is Ok,
            final(rt)@ == set_module_attr(old(rt)@, self.id as int, name@, vid as int),
            final(rt)@.is_module(self.id as int),
            final(rt)@.module_name(self.id as int) == old(rt)@.module_name(self.id as int),
            final(rt)@.module_attrs(self.id as int) == dict_set(
                old(rt)@.module_attrs(self.id as int),
                name@,
                vid as int,
            ),
    {
        set_attr_raw(rt, tok, self.id, name, vid);
        Ok(())
    }

    /// Calls a member of the module by name with positional and keyword
    /// arguments: attribute lookup followed by invocation of the member's
    /// native entry point, with a null result bridged back into a host error
    /// value (fetching the deposited exception and clearing the slot).
    pub fn call(
        &self,
        rt: &mut Runtime,
        tok: &GilToken,
        name: &str,
        args: &Vec<GuestVal>,
        kwargs: &Option<Vec<(String, GuestVal)>>,
    ) -> (r: Result<Owned, ErrorValue>)
        requires
            old(rt)@.wf(),
            old(rt)@.is_module(self.id as int),
            old(rt)@.error_slot is None,
        ensures
            final(rt)@.wf(),
            final(rt)@.error_slot is None,
            final(rt)@.loaded == old(rt)@.loaded,
            final(rt)@.types == old(rt)@.types,
            ({
                let (rt2, ret) = call_v(
                    old(rt)@,
                    self.id as int,
                    name@,
                    guest_vals_view(args@),
                    opt_kw_view(*kwargs),
                );
                final(rt)@ == rt2 && match (r, ret) {
                    (Ok(h), Ok(oid)) => h.id as int == oid,
                    (Err(e), Err(ev)) => e@ == ev,
                    _ => false,
                }
            }),
    {
        let ghost rv0 = rt@;
        let target = match self.get(rt, tok, name) {
            Ok(h) => h,
            Err(e) => {
                return Err(e);
            },
        };
        let fid = target.id;
        proof {
            assert(rv0.obj_wf(self.id as int));
            let did = rv0.module_dict(self.id as int);
            assert(rv0.obj_wf(did));
            lemma_dict_index_props(rv0.module_attrs(self.id as int), name@, 0);
            assert((fid as int) < rv0.objects.len());
        }
        let callable = match &rt.objects[fid] {
            ObjData::Function { .. } => true,
            _ => false,
        };
        if !callable {
            target.release(tok);
            return Err(
                ErrorValue::new(
                    ErrorKind::TypeError,
                    String::from_str("attribute '").concat(name).concat("' is not callable"),
                ),
            );
        }
        let ret = run_entry_point(rt, tok, fid, args, kwargs);
        target.release(tok);
        match ret {
            Some(oid) => Ok(Owned::claim(oid)),
            None => Err(rt.fetch(tok)),
        }
    }

    /// Adds an extension type to the module: idempotent by construction on
    /// the descriptor's ready flag.  A descriptor already marked ready has
    /// its existing type object registered again; otherwise first-time
    /// initialization runs once — binding the declared name and this
    /// module's name into a fresh type object and marking the descriptor
    /// ready — and the result is registered under the type's declared name.
    pub fn add_class(&self, rt: &mut Runtime, tok: &GilToken, tid: usize) -> (r: Result<
        (),
        ErrorValue,
    >)
        requires
            old(rt)@.wf(),
            old(rt)@.is_module(self.id as int),
            tid < old(rt)@.types.len(),
        ensures
            final(rt)@.wf(),
            r is Ok,
            final(rt)@ == add_class_v(old(rt)@, self.id as int, tid as int),
            final(rt)@.error_slot == old(rt)@.error_slot,
            final(rt)@.loaded == old(rt)@.loaded,
            final(rt)@.types[tid as int].ready,
    {
        let ghost rv0 = rt@;
        let ready = rt.types[tid].ready;
        let tname = String::from_str(rt.types[tid].ty_name.as_str());
        if ready {
            proof {
                assert(match rv0.types[tid as int].type_obj {
                    Some(o) => rv0.types[tid as int].ready && 0 <= o < rv0.objects.len()
                        && rv0.objects[o] is TypeObjV,
                    None => !rv0.types[tid as int].ready,
                });
            }
            let to: usize = match rt.types[tid].type_obj {
                Some(o) => o,
                None => {
                    proof {
                        assert(false);
                    }
                    0
                },
            };
            set_attr_raw(rt, tok, self.id, tname.as_str(), to);
            Ok(())
        } else {
            // First-time initialization: bind the declared name and this
            // module's name into the type object, then mark the descriptor
            // ready.  A failure here would leave a half-initialized
            // descriptor, which is why the real layer treats it as fatal; in
            // the model the steps are total.
            let modname = match self.name(rt, tok) {
                Ok(n) => n,
                Err(_) => {
                    proof {
                        assert(false);
                    }
                    String::new()
                },
            };
            let to = rt.allocate(
                tok,
                ObjData::TypeObj { name: String::from_str(tname.as_str()), module: modname },
            );
            let ghost rv1 = rt@;
            let newtd = TypeDescriptor {
                ty_name: String::from_str(tname.as_str()),
                description: String::from_str(rt.types[tid].description.as_str()),
                ready: true,
                type_obj: Some(to),
            };
            rt.types.set(tid, newtd);
            proof {
                let nv = rt@;
                assert(nv.types =~= rv1.types.update(tid as int, newtd@));
                assert forall|i: int| 0 <= i < nv.objects.len() implies nv.obj_wf(i) by {
                    assert(rv1.obj_wf(i));
                }
                assert forall|l: int| 0 <= l < nv.loaded.len() implies 0 <= (
                #[trigger] nv.loaded[l]).1 < nv.objects.len()
                    && nv.objects[nv.loaded[l].1] is ModuleV by {
                    assert(0 <= (rv1.loaded[l]).1 < rv1.objects.len()
                        && rv1.objects[rv1.loaded[l].1] is ModuleV);
                }
                assert forall|t: int| 0 <= t < nv.types.len() implies match (
                #[trigger] nv.types[t]).type_obj {
                    Some(o) => nv.types[t].ready && 0 <= o < nv.objects.len()
                        && nv.objects[o] is TypeObjV,
                    None => !nv.types[t].ready,
                } by {
                    if t != tid as int {
                        assert(match (rv1.types[t]).type_obj {
                            Some(o) => rv1.types[t].ready && 0 <= o < rv1.objects.len()
                                && rv1.objects[o] is TypeObjV,
                            None => !rv1.types[t].ready,
                        });
                    }
                }
                assert(nv.wf());
            }
            set_attr_raw(rt, tok, self.id, tname.as_str(), to);
            proof {
                assert(final(rt)@ =~= add_class_v(rv0, self.id as int, tid as int));
            }
            Ok(())
        }
    }
}

/// What calling a module member does: attribute lookup, then the member's
/// entry point, with a null return bridged into a host error value and a
/// non-callable member rejected.
pub open spec fn call_v(
    rtv: RuntimeV,
    mid: int,
    name: Seq<char>,
    args: Seq<crate::values::GuestV>,
    ks: Seq<(Seq<char>, crate::values::GuestV)>,
) -> (RuntimeV, Result<int, ErrVal>) {
    match dict_get(rtv.module_attrs(mid), name) {
        None => (rtv, Err(ErrVal { kind: ErrorKind::AttributeError, message: attr_err_text(name) })),
        Some(t) => if rtv.objects[t] is FunctionV {
            let (rt2, ret) = entry_v(rtv, t, args, ks);
            match ret {
                Some(oid) => (rt2, Ok(oid)),
                None => (
                    RuntimeV { error_slot: None, ..rt2 },
                    Err(
                        match rt2.error_slot {
                            Some(e) => e,
                            None => ErrVal {
                                kind: ErrorKind::SystemError,
                                message: Seq::<char>::empty(),
                            },
                        },
                    ),
                ),
            }
        } else {
            (rtv, Err(ErrVal { kind: ErrorKind::TypeError, message: not_callable_text(name) }))
        },
    }
}

/// What registering an extension type does: a ready descriptor's type object
/// is bound again under the declared name; an unready one is initialized
/// once — a fresh type object is allocated, the descriptor becomes ready —
/// and then bound.
pub open spec fn add_class_v(rtv: RuntimeV, mid: int, tid: int) -> RuntimeV {
    let td = rtv.types[tid];
    if td.ready {
        let to = match td.type_obj {
            Some(o) => o,
            None => 0,
        };
        set_module_attr(rtv, mid, td.ty_name, to)
    } else {
        let to = rtv.objects.len() as int;
        let rtv1 = RuntimeV {
            objects: rtv.objects.push(
                ObjV::TypeObjV { name: td.ty_name, module: rtv.module_name(mid) },
            ),
            types: rtv.types.update(
                tid,
                TypeDescV { ready: true, type_obj: Some(to), ..td },
            ),
            ..rtv
        };
        set_module_attr(rtv1, mid, td.ty_name, to)
    }
}

/// Registering the same type twice registers it exactly once: the second
/// registration finds the descriptor ready, re-binds the same type object
/// under the same name — changing nothing — and never re-runs first-time
/// initialization.
pub proof fn lemma_add_class_idempotent(rtv: RuntimeV, mid: int, tid: int)
    requires
        rtv.wf(),
        rtv.is_module(mid),
        0 <= tid < rtv.types.len(),
    ensures
        ({
            let r1 = add_class_v(rtv, mid, tid);
            add_class_v(r1, mid, tid) == r1
        }),
{
    let td = rtv.types[tid];
    let did = rtv.module_dict(mid);
    assert(rtv.obj_wf(mid));
    assert(rtv.obj_wf(did));
    let r1 = add_class_v(rtv, mid, tid);
    if td.ready {
        assert(match rtv.types[tid].type_obj {
            Some(o) => rtv.types[tid].ready && 0 <= o < rtv.objects.len()
                && rtv.objects[o] is TypeObjV,
            None => !rtv.types[tid].ready,
        });
        let to = match td.type_obj {
            Some(o) => o,
            None => 0,
        };
        assert(mid != did);
        assert(r1.objects[mid] == rtv.objects[mid]);
        assert(r1.module_dict(mid) == did);
        assert(r1.types == rtv.types);
        lemma_dict_set_same(rtv.module_attrs(mid), td.ty_name, to);
        let r2 = add_class_v(r1, mid, tid);
        assert(r1.module_attrs(mid) == dict_set(rtv.module_attrs(mid), td.ty_name, to));
        assert(r2.objects =~= r1.objects);
        assert(r2 =~= r1);
    } else {
        let to = rtv.objects.len() as int;
        let rtv1 = RuntimeV {
            objects: rtv.objects.push(
                ObjV::TypeObjV { name: td.ty_name, module: rtv.module_name(mid) },
            ),
            types: rtv.types.update(tid, TypeDescV { ready: true, type_obj: Some(to), ..td }),
            ..rtv
        };
        assert(mid != did);
        assert(rtv1.objects[mid] == rtv.objects[mid]);
        assert(rtv1.module_dict(mid) == did);
        assert(r1 == set_module_attr(rtv1, mid, td.ty_name, to));
        assert(r1.objects[mid] == rtv.objects[mid]);
        assert(r1.module_dict(mid) == did);
        assert(r1.types[tid].ready);
        assert(r1.types[tid].ty_name == td.ty_name);
        assert(r1.types[tid].type_obj == Some(to));
        lemma_dict_set_same(rtv1.module_attrs(mid), td.ty_name, to);
        assert(r1.module_attrs(mid) == dict_set(rtv1.module_attrs(mid), td.ty_name, to));
        let r2 = add_class_v(r1, mid, tid);
        assert(r2.objects =~= r1.objects);
        assert(r2 =~= r1);
    }
}

} // verus!
