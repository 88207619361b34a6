//! The guest runtime as explicit state: an object heap, the thread-local
//! error slot, the import registry and the type-descriptor table — together
//! with the lock token, the unwind guard, the two handle modes, and the
//! error bridge (fetch / restore) over the slot.

use crate::errors::{ErrVal, ErrorKind, ErrorValue};
use crate::hostfn::{HostExpr, HostExprV};
use crate::meta::{FunctionSpec, FunctionSpecV};
use crate::values::{GuestV, GuestVal};
use vstd::prelude::*;
use vstd::string::*;

verus! {

/// Proof that the guest runtime's single global lock is held by the calling
/// thread.  This layer never takes the lock itself: every operation that
/// touches guest state demands the token, and only a true native entry
/// point — where the guest hands control with the lock already held — may
/// mint one.
pub struct GilToken {}

impl GilToken {
    /// Asserts possession of the lock the guest granted before calling into
    /// native code.  Only entry-point drivers call this.
    pub fn assume_held() -> GilToken {
        GilToken {  }
    }
}

/// The abort-on-unwind guard of a native entry point.  It is armed on entry
/// and must be moved into `defuse` on every controlled exit path; because it
/// can neither be copied nor dropped silently by verified code, each guard is
/// defused exactly once, and an uncontrolled unwind would carry it across
/// the native boundary still armed — the real guard aborts the process
/// there.
pub struct CallbackGuard {
    /// The diagnostic location tag of the entry point that armed the guard.
    pub location: String,
}

impl CallbackGuard {
    /// Arms a guard for the entry point named by the location tag.
    pub fn arm(location: String) -> (g: CallbackGuard)
        ensures
            g.location@ == location@,
    {
        CallbackGuard { location }
    }

    /// Defuses the guard on a controlled exit: the return value of the entry
    /// point is decided and crossing the boundary is safe.
    pub fn defuse(self) {
    }
}

/// The view of a dictionary's executable entries.
pub open spec fn entries_view(es: Seq<(String, usize)>) -> Seq<(Seq<char>, int)> {
    es.map_values(|p: (String, usize)| (p.0@, p.1 as int))
}

/// Mathematical model of an [`ObjData`].
pub enum ObjV {
    ValueV(GuestV),
    ModuleV { name: Seq<char>, filename: Option<Seq<char>>, dict: int },
    DictV(Seq<(Seq<char>, int)>),
    FunctionV { func: FunctionSpecV, body: HostExprV },
    TypeObjV { name: Seq<char>, module: Seq<char> },
}

/// One object in the guest heap.
pub enum ObjData {
    /// A plain guest value.
    Value(GuestVal),
    /// A module: its name, its optional filename, and the heap index of its
    /// namespace dictionary.
    Module { name: String, filename: Option<String>, dict: usize },
    /// A namespace dictionary: attribute names mapped to heap indices.
    Dict(Vec<(String, usize)>),
    /// A native function entry point: the normalized description it was
    /// generated from, and the wrapped host body.
    Function { func: FunctionSpec, body: HostExpr },
    /// A registered extension type object: its declared name and the name
    /// of the module it was first initialized under.
    TypeObj { name: String, module: String },
}

impl View for ObjData {
    type V = ObjV;

    open spec fn view(&self) -> ObjV {
        match self {
            ObjData::Value(v) => ObjV::ValueV(v@),
            ObjData::Module { name, filename, dict } => ObjV::ModuleV {
                name: name@,
                filename: match filename {
                    Some(f) => Some(f@),
                    None => None,
                },
                dict: *dict as int,
            },
            ObjData::Dict(es) => ObjV::DictV(entries_view(es@)),
            ObjData::Function { func, body } => ObjV::FunctionV { func: func@, body: body@ },
            ObjData::TypeObj { name, module } => ObjV::TypeObjV { name: name@, module: module@ },
        }
    }
}

/// Mathematical model of a [`TypeDescriptor`].
pub struct TypeDescV {
    pub ty_name: Seq<char>,
    pub description: Seq<char>,
    pub ready: bool,
    pub type_obj: Option<int>,
}

/// The native descriptor of one extension type: its declared name and
/// docstring, the one-time ready flag, and — once first-time initialization
/// has run — the heap index of its type object.
pub struct TypeDescriptor {
    pub ty_name: String,
    pub description: String,
    pub ready: bool,
    pub type_obj: Option<usize>,
}

impl View for TypeDescriptor {
    type V = TypeDescV;

    open spec fn view(&self) -> TypeDescV {
        TypeDescV {
            ty_name: self.ty_name@,
            description: self.description@,
            ready: self.ready,
            type_obj: match self.type_obj {
                Some(o) => Some(o as int),
                None => None,
            },
        }
    }
}

/// Mathematical model of a [`Runtime`].
pub struct RuntimeV {
    pub objects: Seq<ObjV>,
    pub error_slot: Option<ErrVal>,
    pub loaded: Seq<(Seq<char>, int)>,
    pub types: Seq<TypeDescV>,
}

/// The guest runtime's state, as far as this layer observes and changes it:
/// the object heap (an index is an object pointer; the heap never shrinks,
/// collection being the guest's own concern), the thread-local error slot,
/// the import registry, and the extension-type descriptor table.
pub struct Runtime {
    pub objects: Vec<ObjData>,
    pub error_slot: Option<ErrorValue>,
    pub loaded: Vec<(String, usize)>,
    pub types: Vec<TypeDescriptor>,
}

impl View for Runtime {
    type V = RuntimeV;

    open spec fn view(&self) -> RuntimeV {
        RuntimeV {
            objects: self.objects@.map_values(|o: ObjData| o@),
            error_slot: match self.error_slot {
                Some(e) => Some(e@),
                None => None,
            },
            loaded: self.loaded@.map_values(|p: (String, usize)| (p.0@, p.1 as int)),
            types: self.types@.map_values(|t: TypeDescriptor| t@),
        }
    }
}

/// A dictionary's entries are well-formed against a heap of `n` objects:
/// every target is a valid index and every name occurs once.
pub open spec fn dict_wf(es: Seq<(Seq<char>, int)>, n: int) -> bool {
    &&& forall|j: int| 0 <= j < es.len() ==> 0 <= (#[trigger] es[j]).1 < n
    &&& forall|j: int, k: int| 0 <= j < k < es.len() ==> es[j].0 != es[k].0
}

impl RuntimeV {
    /// Object `i` is internally consistent against this heap.
    pub open spec fn obj_wf(self, i: int) -> bool {
        match self.objects[i] {
            ObjV::ModuleV { dict, .. } => 0 <= dict < self.objects.len()
                && self.objects[dict] is DictV,
            ObjV::DictV(es) => dict_wf(es, self.objects.len() as int),
            _ => true,
        }
    }

    /// The whole runtime state is consistent: objects are internally valid,
    /// the import registry names modules, and a type descriptor holds a type
    /// object exactly when its ready flag is set.
    pub open spec fn wf(self) -> bool {
        &&& forall|i: int| 0 <= i < self.objects.len() ==> self.obj_wf(i)
        &&& forall|l: int|
            0 <= l < self.loaded.len() ==> 0 <= (#[trigger] self.loaded[l]).1
                < self.objects.len() && self.objects[self.loaded[l].1] is ModuleV
        &&& forall|t: int|
            0 <= t < self.types.len() ==> match (#[trigger] self.types[t]).type_obj {
                Some(o) => self.types[t].ready && 0 <= o < self.objects.len()
                    && self.objects[o] is TypeObjV,
                None => !self.types[t].ready,
            }
    }

    /// Whether heap index `id` is a module object.
    pub open spec fn is_module(self, id: int) -> bool {
        0 <= id < self.objects.len() && self.objects[id] is ModuleV
    }

    /// The name of module `id`.
    pub open spec fn module_name(self, id: int) -> Seq<char> {
        match self.objects[id] {
            ObjV::ModuleV { name, .. } => name,
            _ => Seq::<char>::empty(),
        }
    }

    /// The filename of module `id`.
    pub open spec fn module_filename(self, id: int) -> Option<Seq<char>> {
        match self.objects[id] {
            ObjV::ModuleV { filename, .. } => filename,
            _ => None,
        }
    }

    /// The heap index of module `id`'s namespace dictionary.
    pub open spec fn module_dict(self, id: int) -> int {
        match self.objects[id] {
            ObjV::ModuleV { dict, .. } => dict,
            _ => 0,
        }
    }

    /// The entries of dictionary object `did`.
    pub open spec fn dict_entries(self, did: int) -> Seq<(Seq<char>, int)> {
        match self.objects[did] {
            ObjV::DictV(es) => es,
            _ => Seq::<(Seq<char>, int)>::empty(),
        }
    }

    /// The attribute entries of module `id`.
    pub open spec fn module_attrs(self, id: int) -> Seq<(Seq<char>, int)> {
        self.dict_entries(self.module_dict(id))
    }

    /// First match of a module name in the import registry.
    pub open spec fn registry_lookup_from(self, name: Seq<char>, j: int) -> Option<int>
        decreases self.loaded.len() - j,
    {
        if j < 0 || j >= self.loaded.len() {
            None
        } else if self.loaded[j].0 == name {
            Some(self.loaded[j].1)
        } else {
            self.registry_lookup_from(name, j + 1)
        }
    }

    /// Lookup of a module name in the import registry.
    pub open spec fn registry_lookup(self, name: Seq<char>) -> Option<int> {
        self.registry_lookup_from(name, 0)
    }
}

/// First index of a name in a dictionary, from entry `j` on.
pub open spec fn dict_index_from(es: Seq<(Seq<char>, int)>, name: Seq<char>, j: int) -> Option<int>
    decreases es.len() - j,
{
    if j < 0 || j >= es.len() {
        None
    } else if es[j].0 == name {
        Some(j)
    } else {
        dict_index_from(es, name, j + 1)
    }
}

/// First index of a name in a dictionary.
pub open spec fn dict_index(es: Seq<(Seq<char>, int)>, name: Seq<char>) -> Option<int> {
    dict_index_from(es, name, 0)
}

/// The target a name maps to in a dictionary.
pub open spec fn dict_get(es: Seq<(Seq<char>, int)>, name: Seq<char>) -> Option<int> {
    match dict_index(es, name) {
        Some(i) => Some(es[i].1),
        None => None,
    }
}

/// The dictionary after binding a name to a target: the existing entry is
/// replaced, or a new entry is appended.
pub open spec fn dict_set(es: Seq<(Seq<char>, int)>, name: Seq<char>, v: int) -> Seq<
    (Seq<char>, int),
> {
    match dict_index(es, name) {
        Some(i) => es.update(i, (name, v)),
        None => es.push((name, v)),
    }
}

/// Where the first index of a name is: it carries that name, earlier entries
/// do not, and absence means no entry carries it.
pub proof fn lemma_dict_index_props(es: Seq<(Seq<char>, int)>, name: Seq<char>, j: int)
    requires
        0 <= j,
    ensures
        match dict_index_from(es, name, j) {
            Some(i) => j <= i < es.len() && es[i].0 == name && forall|k: int|
                j <= k < i ==> (#[trigger] es[k]).0 != name,
            None => forall|k: int| j <= k < es.len() ==> (#[trigger] es[k]).0 != name,
        },
    decreases es.len() - j,
{
    if 0 <= j < es.len() && es[j].0 != name {
        lemma_dict_index_props(es, name, j + 1);
    }
}

/// A binding just made is what lookup finds, and re-binding the same name to
/// the same target changes nothing.
pub proof fn lemma_dict_set_same(es: Seq<(Seq<char>, int)>, name: Seq<char>, v: int)
    ensures
        dict_get(dict_set(es, name, v), name) == Some(v),
        dict_set(dict_set(es, name, v), name, v) == dict_set(es, name, v),
{
    lemma_dict_index_props(es, name, 0);
    let d1 = dict_set(es, name, v);
    lemma_dict_index_props(d1, name, 0);
    match dict_index(es, name) {
        Some(i) => {
            assert(d1[i].0 == name);
            match dict_index(d1, name) {
                Some(i2) => {
                    if i2 < i {
                        assert(es[i2].0 != name);
                        assert(d1[i2] == es[i2]);
                    }
                    if i < i2 {
                        assert(d1[i].0 != name);
                    }
                    assert(i2 == i);
                    assert(d1[i].1 == v);
                    assert(dict_set(d1, name, v) =~= d1);
                },
                None => {
                    assert(false);
                },
            }
        },
        None => {
            let n = es.len() as int;
            assert(d1[n].0 == name);
            match dict_index(d1, name) {
                Some(i2) => {
                    if i2 < n {
                        assert(es[i2].0 != name);
                        assert(d1[i2] == es[i2]);
                    }
                    assert(i2 == n);
                    assert(d1[i2].1 == v);
                    assert(dict_set(d1, name, v) =~= d1);
                },
                None => {
                    assert(false);
                },
            }
        },
    }
}

/// Binding a name preserves dictionary well-formedness, in any heap at least
/// as large.
pub proof fn lemma_dict_set_wf(es: Seq<(Seq<char>, int)>, name: Seq<char>, v: int, n: int, m: int)
    requires
        dict_wf(es, n),
        0 <= v < m,
        n <= m,
    ensures
        dict_wf(dict_set(es, name, v), m),
{
    lemma_dict_index_props(es, name, 0);
    match dict_index(es, name) {
        Some(i) => {
            let es2 = es.update(i, (name, v));
            assert forall|j: int, k: int| 0 <= j < k < es2.len() implies es2[j].0 != es2[k].0 by {
                assert(es[j].0 != es[k].0);
                assert(es[i].0 == name);
            }
        },
        None => {
            let es2 = es.push((name, v));
            assert forall|j: int, k: int| 0 <= j < k < es2.len() implies es2[j].0 != es2[k].0 by {
                if k < es.len() {
                    assert(es[j].0 != es[k].0);
                } else {
                    assert(es2[k].0 == name);
                    assert(es[j].0 != name);
                }
            }
        },
    }
}

/// Consistency does not depend on the error slot: a state with the same
/// heap, registry and type table as a consistent one is consistent.
pub proof fn lemma_wf_preserved(a: RuntimeV, b: RuntimeV)
    requires
        a.wf(),
        b.objects == a.objects,
        b.loaded == a.loaded,
        b.types == a.types,
    ensures
        b.wf(),
{
    assert forall|i: int| 0 <= i < b.objects.len() implies b.obj_wf(i) by {
        assert(a.obj_wf(i));
    }
    assert forall|l: int| 0 <= l < b.loaded.len() implies 0 <= (#[trigger] b.loaded[l]).1
        < b.objects.len() && b.objects[b.loaded[l].1] is ModuleV by {
        assert(0 <= (a.loaded[l]).1 < a.objects.len() && a.objects[a.loaded[l].1] is ModuleV);
    }
    assert forall|t: int| 0 <= t < b.types.len() implies match (#[trigger] b.types[t]).type_obj {
        Some(o) => b.types[t].ready && 0 <= o < b.objects.len() && b.objects[o] is TypeObjV,
        None => !b.types[t].ready,
    } by {
        assert(match (a.types[t]).type_obj {
            Some(o) => a.types[t].ready && 0 <= o < a.objects.len() && a.objects[o] is TypeObjV,
            None => !a.types[t].ready,
        });
    }
}

impl Runtime {
    /// A fresh guest runtime: empty heap, clear error slot, empty import
    /// registry and type table.
    pub fn boot() -> (r: Runtime)
        ensures
            r@.wf(),
            r@.objects.len() == 0,
            r@.error_slot is None,
            r@.loaded.len() == 0,
            r@.types.len() == 0,
    {
        Runtime { objects: Vec::new(), error_slot: None, loaded: Vec::new(), types: Vec::new() }
    }

    /// Whether the guest error slot holds a pending exception.
    pub fn error_pending(&self, tok: &GilToken) -> (b: bool)
        ensures
            b == (self@.error_slot is Some),
    {
        let _ = tok;
        match &self.error_slot {
            Some(_) => true,
            None => false,
        }
    }

    /// The error bridge, inward: deposits a host error value into the guest
    /// error slot, as every failing entry point must do exactly once before
    /// returning the failure sentinel.
    pub fn restore(&mut self, tok: &GilToken, e: ErrorValue)
        ensures
            final(self)@ == (RuntimeV { error_slot: Some(e@), ..old(self)@ }),
            old(self)@.wf() ==> final(self)@.wf(),
    {
        let _ = tok;
        self.error_slot = Some(e);
        proof {
            if old(self)@.wf() {
                lemma_wf_preserved(old(self)@, self@);
            }
        }
    }

    /// The error bridge, outward: fetches the pending guest exception,
    /// clearing the slot and converting it to a host error value.
    pub fn fetch(&mut self, tok: &GilToken) -> (r: ErrorValue)
        requires
            old(self)@.error_slot is Some,
        ensures
            final(self)@ == (RuntimeV { error_slot: None, ..old(self)@ }),
            Some(r@) == old(self)@.error_slot,
            old(self)@.wf() ==> final(self)@.wf(),
    {
        proof {
            if old(self)@.wf() {
                lemma_wf_preserved(old(self)@, RuntimeV { error_slot: None, ..old(self)@ });
            }
        }
        let _ = tok;
        let r = match &self.error_slot {
            Some(e) => e.duplicate(),
            None => ErrorValue::new(ErrorKind::SystemError, String::new()),
        };
        self.error_slot = None;
        r
    }

    /// Whether `data` may enter this heap: any index it carries is valid.
    pub open spec fn data_wf(self, d: ObjV) -> bool {
        match d {
            ObjV::ModuleV { dict, .. } => 0 <= dict < self@.objects.len()
                && self@.objects[dict] is DictV,
            ObjV::DictV(es) => dict_wf(es, self@.objects.len() as int),
            _ => true,
        }
    }

    /// Allocates a fresh guest object holding `data`; the new heap index is
    /// the single reference the caller receives.
    pub fn allocate(&mut self, tok: &GilToken, data: ObjData) -> (id: usize)
        requires
            old(self)@.wf(),
            old(self).data_wf(data@),
        ensures
            final(self)@.wf(),
            id as int == old(self)@.objects.len(),
            final(self)@.objects == old(self)@.objects.push(data@),
            final(self)@.error_slot == old(self)@.error_slot,
            final(self)@.loaded == old(self)@.loaded,
            final(self)@.types == old(self)@.types,
    {
        let _ = tok;
        let id = self.objects.len();
        self.objects.push(data);
        proof {
            let nv = self@;
            let ov = old(self)@;
            assert(nv.objects =~= ov.objects.push(data@));
            assert forall|i: int| 0 <= i < nv.objects.len() implies nv.obj_wf(i) by {
                if i < ov.objects.len() {
                    assert(ov.obj_wf(i));
                    assert(nv.objects[i] == ov.objects[i]);
                }
            }
        }
        id
    }
}

/// An owning handle: it holds the one reference unit its creator received
/// for heap object `id`.  It can be neither copied nor cloned, so the unit
/// is surrendered at most once, and only by `release`.
#[derive(Debug)]
pub struct Owned {
    pub id: usize,
}

impl Owned {
    /// Claims ownership of the reference unit received for `id`.
    pub fn claim(id: usize) -> (h: Owned)
        ensures
            h.id == id,
    {
        Owned { id }
    }

    /// A borrowed view of the same object, bounded by the borrow of `self`.
    pub fn as_borrowed(&self) -> (b: Borrowed)
        ensures
            b.id == self.id,
    {
        Borrowed { id: self.id }
    }

    /// Surrenders the handle's reference unit.  Consuming the handle is what
    /// makes a double release or a use after release unwritable.
    pub fn release(self, tok: &GilToken) {
        let _ = tok;
    }
}

/// A borrowed handle: its scope owns no reference unit, so it must never
/// release one.  It is freely copyable within the lock scope it came from.
#[derive(Clone, Copy, Debug)]
pub struct Borrowed {
    pub id: usize,
}

} // verus!
