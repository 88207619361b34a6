//! The generation-time side: from an annotated host declaration to the
//! normalized specifications and plans the generated code is built from.
//! Annotation surface syntax is already parsed here — the inputs are the
//! declarations as data — and every decision the generator makes (which
//! functions are wrapped, which parameters are guest-visible, what the
//! exported initializer symbol is called) is contracted and proved.

use crate::meta::{
    FnKind, FunctionSpec, FunctionSpecV, HostType, ParamV, ParameterSpec, is_optional_type,
    optional_type, params_view,
};
use vstd::prelude::*;
use vstd::string::*;

verus! {

/// The declared type of one parameter, as far as generation classifies it:
/// the runtime-lock token, a supported host type, or a shape that cannot be
/// classified as positional/keyword-capable.
#[derive(Clone, Copy, PartialEq, Eq, Structural, Debug)]
pub enum TypeDecl {
    TokenTy,
    Host(HostType),
    Unclassifiable,
}

/// Mathematical model of a [`FnInput`].
pub enum FnInputV {
    ReceiverV,
    NamedV(Seq<char>, TypeDecl),
    IgnoredV,
}

/// One input of a host function declaration: a receiver, a named parameter
/// with its declared type, or an ignored (unnamed) binding pattern.
pub enum FnInput {
    Receiver,
    Named(String, TypeDecl),
    Ignored,
}

impl View for FnInput {
    type V = FnInputV;

    open spec fn view(&self) -> FnInputV {
        match self {
            FnInput::Receiver => FnInputV::ReceiverV,
            FnInput::Named(n, t) => FnInputV::NamedV(n@, *t),
            FnInput::Ignored => FnInputV::IgnoredV,
        }
    }
}

/// Mathematical model of a [`PyFnAnnotation`].
pub struct PyFnAnnV {
    pub module: Option<Seq<char>>,
    pub exported: Option<Seq<char>>,
}

/// The function-export marker: the target module and the exported name,
/// either of which the writer may have failed to supply.
pub struct PyFnAnnotation {
    pub module: Option<String>,
    pub exported: Option<String>,
}

impl View for PyFnAnnotation {
    type V = PyFnAnnV;

    open spec fn view(&self) -> PyFnAnnV {
        PyFnAnnV {
            module: match &self.module {
                Some(m) => Some(m@),
                None => None,
            },
            exported: match &self.exported {
                Some(e) => Some(e@),
                None => None,
            },
        }
    }
}

/// Mathematical model of an [`Annotation`].
pub enum AnnV {
    PyFnV(PyFnAnnV),
    OtherV(Seq<char>),
}

/// One annotation attached to a declaration: the recognized function-export
/// marker, or anything else, kept as it stands.
pub enum Annotation {
    PyFn(PyFnAnnotation),
    Other(String),
}

impl View for Annotation {
    type V = AnnV;

    open spec fn view(&self) -> AnnV {
        match self {
            Annotation::PyFn(a) => AnnV::PyFnV(a@),
            Annotation::Other(s) => AnnV::OtherV(s@),
        }
    }
}

/// Mathematical model of a [`FnDecl`].
pub struct FnDeclV {
    pub name: Seq<char>,
    pub annotations: Seq<AnnV>,
    pub inputs: Seq<FnInputV>,
    pub doc: Seq<char>,
}

/// A host function declaration as the generator reads it: its name, its
/// annotations, its inputs and its documentation text.
pub struct FnDecl {
    pub name: String,
    pub annotations: Vec<Annotation>,
    pub inputs: Vec<FnInput>,
    pub doc: String,
}

impl View for FnDecl {
    type V = FnDeclV;

    open spec fn view(&self) -> FnDeclV {
        FnDeclV {
            name: self.name@,
            annotations: self.annotations@.map_values(|a: Annotation| a@),
            inputs: self.inputs@.map_values(|i: FnInput| i@),
            doc: self.doc@,
        }
    }
}

/// Mathematical model of a [`GenError`].
pub enum GenErrV {
    UnsupportedPatternV(Seq<char>),
    ConflictingAnnotationsV(Seq<char>),
    UnclassifiableV(Seq<char>),
    NotAFunctionV,
}

/// A generation-time failure: it aborts code generation with a diagnostic
/// naming the offending declaration or parameter, and never produces a
/// native entry point.
#[derive(Debug)]
pub enum GenError {
    /// An ignored (unnamed) parameter pattern; names the function.
    UnsupportedPattern(String),
    /// The export marker was given more than once; names the function.
    ConflictingAnnotations(String),
    /// A parameter type that cannot be classified; names the parameter.
    Unclassifiable(String),
    /// The module-init marker was placed on something that is not a
    /// function.
    NotAFunction,
}

impl View for GenError {
    type V = GenErrV;

    open spec fn view(&self) -> GenErrV {
        match self {
            GenError::UnsupportedPattern(n) => GenErrV::UnsupportedPatternV(n@),
            GenError::ConflictingAnnotations(n) => GenErrV::ConflictingAnnotationsV(n@),
            GenError::Unclassifiable(n) => GenErrV::UnclassifiableV(n@),
            GenError::NotAFunction => GenErrV::NotAFunctionV,
        }
    }
}

/// Index of the first export marker among the annotations, from `j` on.
pub open spec fn first_pyfn(anns: Seq<AnnV>, j: int) -> Option<int>
    decreases anns.len() - j,
{
    if j < 0 || j >= anns.len() {
        None
    } else if anns[j] is PyFnV {
        Some(j)
    } else {
        first_pyfn(anns, j + 1)
    }
}

/// What extracting the guest-visible parameters from the inputs yields,
/// from input `i` on: the first parameter may be the lock token, which is
/// excluded from the guest-visible list and supplied implicitly.
pub open spec fn extract_params(
    inputs: Seq<FnInputV>,
    fname: Seq<char>,
    i: int,
    seen_token: bool,
) -> Result<(Seq<ParamV>, bool), GenErrV>
    decreases inputs.len() - i,
{
    if i < 0 || i >= inputs.len() {
        Ok((Seq::<ParamV>::empty(), seen_token))
    } else {
        match inputs[i] {
            FnInputV::ReceiverV => extract_params(inputs, fname, i + 1, seen_token),
            FnInputV::IgnoredV => Err(GenErrV::UnsupportedPatternV(fname)),
            FnInputV::NamedV(n, t) => match t {
                TypeDecl::TokenTy => if !seen_token {
                    extract_params(inputs, fname, i + 1, true)
                } else {
                    Err(GenErrV::UnclassifiableV(n))
                },
                TypeDecl::Unclassifiable => Err(GenErrV::UnclassifiableV(n)),
                TypeDecl::Host(h) => match extract_params(inputs, fname, i + 1, seen_token) {
                    Ok((rest, tk)) => Ok(
                        (
                            seq![ParamV { name: n, ty: h, optional: is_optional_type(h) }] + rest,
                            tk,
                        ),
                    ),
                    Err(e) => Err(e),
                },
            },
        }
    }
}

/// What wrapping a declaration yields: nothing where the export marker is
/// absent or incomplete, a conflict error where it is given twice, the
/// parameter extraction's error where an input is unsupported, and otherwise
/// the normalized function specification with its target module.
pub open spec fn wrap_fn_v(d: FnDeclV) -> Result<Option<(Seq<char>, FunctionSpecV)>, GenErrV> {
    match first_pyfn(d.annotations, 0) {
        None => Ok(None),
        Some(j) => if first_pyfn(d.annotations, j + 1) is Some {
            Err(GenErrV::ConflictingAnnotationsV(d.name))
        } else {
            let a = match d.annotations[j] {
                AnnV::PyFnV(a) => a,
                _ => PyFnAnnV { module: None, exported: None },
            };
            match (a.module, a.exported) {
                (Some(m), Some(x)) => match extract_params(d.inputs, d.name, 0, false) {
                    Err(e) => Err(e),
                    Ok((ps, tk)) => Ok(
                        Some(
                            (
                                m,
                                FunctionSpecV {
                                    kind: FnKind::Free,
                                    host_name: d.name,
                                    exported: x,
                                    params: ps,
                                    takes_token: tk,
                                    doc: d.doc,
                                },
                            ),
                        ),
                    ),
                },
                _ => Ok(None),
            }
        },
    }
}

/// One wrapped function, ready for registration: the target module's name
/// and the normalized specification.
#[derive(Debug)]
pub struct FnRegistration {
    pub module: String,
    pub func: FunctionSpec,
}

/// Extracts the guest-visible parameter list from a declaration's inputs.
fn extract_params_exec(inputs: &Vec<FnInput>, fname: &String) -> (r: Result<
    (Vec<ParameterSpec>, bool),
    GenError,
>)
    ensures
        match r {
            Ok((ps, tk)) => extract_params(
                inputs@.map_values(|i: FnInput| i@),
                fname@,
                0,
                false,
            ) == Ok::<(Seq<ParamV>, bool), GenErrV>((params_view(ps@), tk)),
            Err(e) => extract_params(inputs@.map_values(|i: FnInput| i@), fname@, 0, false) == Err::<
                (Seq<ParamV>, bool),
                GenErrV,
            >(e@),
        },
{
    let ghost iv = inputs@.map_values(|i: FnInput| i@);
    let mut acc: Vec<ParameterSpec> = Vec::new();
    let mut seen_token = false;
    let mut i: usize = 0;
    while i < inputs.len()
        invariant
            i <= inputs.len(),
            iv == inputs@.map_values(|k: FnInput| k@),
            iv.len() == inputs@.len(),
            extract_params(iv, fname@, 0, false) == (match extract_params(
                iv,
                fname@,
                i as int,
                seen_token,
            ) {
                Ok((rest, tk)) => Ok::<(Seq<ParamV>, bool), GenErrV>(
                    (params_view(acc@) + rest, tk),
                ),
                Err(e) => Err::<(Seq<ParamV>, bool), GenErrV>(e),
            }),
        decreases inputs.len() - i,
    {
        match &inputs[i] {
            FnInput::Receiver => {},
            FnInput::Ignored => {
                return Err(GenError::UnsupportedPattern(String::from_str(fname.as_str())));
            },
            FnInput::Named(n, t) => {
                match t {
                    TypeDecl::TokenTy => {
                        if !seen_token {
                            seen_token = true;
                        } else {
                            return Err(GenError::Unclassifiable(String::from_str(n.as_str())));
                        }
                    },
                    TypeDecl::Unclassifiable => {
                        return Err(GenError::Unclassifiable(String::from_str(n.as_str())));
                    },
                    TypeDecl::Host(h) => {
                        let opt = optional_type(*h);
                        let ghost accpre = acc@;
                        acc.push(
                            ParameterSpec {
                                name: String::from_str(n.as_str()),
                                ty: *h,
                                optional: opt,
                            },
                        );
                        proof {
                            let single = seq![
                                ParamV { name: n@, ty: *h, optional: is_optional_type(*h) },
                            ];
                            assert(params_view(acc@) =~= params_view(accpre) + single);
                            match extract_params(iv, fname@, i as int + 1, seen_token) {
                                Ok((rest, tk)) => {
                                    assert((params_view(accpre) + single) + rest =~= params_view(
                                        accpre,
                                    ) + (single + rest));
                                },
                                Err(_) => {},
                            }
                        }
                    },
                }
            },
        }
        i += 1;
    }
    proof {
        assert(params_view(acc@) + Seq::<ParamV>::empty() =~= params_view(acc@));
    }
    Ok((acc, seen_token))
}

/// Consumes a host function declaration, as the generator does for each
/// statement of an init body: where the export marker names a module and an
/// exported name, the declaration is normalized into a registration; where
/// the marker is absent or incomplete the declaration is left as it stands;
/// a repeated marker or an unsupported input aborts generation.
pub fn wrap_fn(d: &FnDecl) -> (r: Result<Option<FnRegistration>, GenError>)
    ensures
        match r {
            Ok(Some(reg)) => wrap_fn_v(d@) == Ok::<Option<(Seq<char>, FunctionSpecV)>, GenErrV>(
                Some((reg.module@, reg.func@)),
            ),
            Ok(None) => wrap_fn_v(d@) == Ok::<Option<(Seq<char>, FunctionSpecV)>, GenErrV>(None),
            Err(e) => wrap_fn_v(d@) == Err::<Option<(Seq<char>, FunctionSpecV)>, GenErrV>(e@),
        },
{
    let ghost av = d.annotations@.map_values(|a: Annotation| a@);
    // Find the export marker; a second occurrence is a conflict.
    let mut found: Option<usize> = None;
    let mut j: usize = 0;
    while j < d.annotations.len()
        invariant
            j <= d.annotations.len(),
            av == d.annotations@.map_values(|a: Annotation| a@),
            av.len() == d.annotations@.len(),
            match found {
                Some(f) => f < j && first_pyfn(av, 0) == Some(f as int) && first_pyfn(
                    av,
                    f as int + 1,
                ) == first_pyfn(av, j as int) && av[f as int] is PyFnV,
                None => first_pyfn(av, 0) == first_pyfn(av, j as int),
            },
        decreases d.annotations.len() - j,
    {
        let is_pyfn = match &d.annotations[j] {
            Annotation::PyFn(_) => true,
            Annotation::Other(_) => false,
        };
        if is_pyfn {
            match found {
                None => {
                    assert(first_pyfn(av, j as int) == Some(j as int));
                    found = Some(j);
                },
                Some(_) => {
                    assert(first_pyfn(av, j as int) == Some(j as int));
                    return Err(
                        GenError::ConflictingAnnotations(String::from_str(d.name.as_str())),
                    );
                },
            }
        } else {
            assert(first_pyfn(av, j as int) == first_pyfn(av, j as int + 1));
        }
        proof {
            if found is Some && av[j as int] is PyFnV && found != Some(j) {
                assert(false);
            }
        }
        j += 1;
    }
    let f = match found {
        None => {
            assert(first_pyfn(av, 0) is None);
            return Ok(None);
        },
        Some(f) => f,
    };
    assert(first_pyfn(av, f as int + 1) is None);
    let (module, exported): (String, String) = match &d.annotations[f] {
        Annotation::PyFn(a) => {
            match (&a.module, &a.exported) {
                (Some(m), Some(x)) => (String::from_str(m.as_str()), String::from_str(x.as_str())),
                _ => {
                    return Ok(None);
                },
            }
        },
        Annotation::Other(_) => {
            proof {
                assert(false);
            }
            return Ok(None);
        },
    };
    match extract_params_exec(&d.inputs, &d.name) {
        Err(e) => Err(e),
        Ok((params, takes_token)) => Ok(
            Some(
                FnRegistration {
                    module,
                    func: FunctionSpec {
                        kind: FnKind::Free,
                        host_name: String::from_str(d.name.as_str()),
                        exported,
                        params,
                        takes_token,
                        doc: String::from_str(d.doc.as_str()),
                    },
                },
            ),
        ),
    }
}

/// One generation of the guest runtime's module-loading convention.  The
/// two differ only in the exported symbol's naming and the creation call
/// sequence; the initializer's behaviour is generation-agnostic.
#[derive(Clone, Copy, PartialEq, Eq, Structural, Debug)]
pub enum AbiGen {
    Py3,
    Py2,
}

/// The exported initializer symbol a module name determines, under each
/// generation's naming convention.
pub open spec fn init_symbol_text(abi: AbiGen, name: Seq<char>) -> Seq<char> {
    match abi {
        AbiGen::Py3 => "PyInit_"@ + name,
        AbiGen::Py2 => "init"@ + name,
    }
}

/// The plan for one module-initializer entry point: the exported symbol,
/// the module name, the host init function it calls, and the generation.
pub struct InitPlan {
    pub symbol: String,
    pub module_name: String,
    pub init_fn: String,
    pub abi: AbiGen,
}

/// Plans the third-generation initializer entry point for a module: the
/// symbol is the module name under the `PyInit_` convention.
pub fn py3_init(fnname: &str, name: &str) -> (p: InitPlan)
    ensures
        p.symbol@ == init_symbol_text(AbiGen::Py3, name@),
        p.module_name@ == name@,
        p.init_fn@ == fnname@,
        p.abi == AbiGen::Py3,
{
    let symbol = String::from_str("PyInit_").concat(name);
    InitPlan {
        symbol,
        module_name: String::from_str(name),
        init_fn: String::from_str(fnname),
        abi: AbiGen::Py3,
    }
}

/// Plans the second-generation initializer entry point for a module: the
/// symbol is the module name under the `init` convention.
pub fn py2_init(fnname: &str, name: &str) -> (p: InitPlan)
    ensures
        p.symbol@ == init_symbol_text(AbiGen::Py2, name@),
        p.module_name@ == name@,
        p.init_fn@ == fnname@,
        p.abi == AbiGen::Py2,
{
    let symbol = String::from_str("init").concat(name);
    InitPlan {
        symbol,
        module_name: String::from_str(name),
        init_fn: String::from_str(fnname),
        abi: AbiGen::Py2,
    }
}

/// The static wrapper a function specification determines: the diagnostic
/// location tag, the name the method table registers, and the docstring.
pub struct WrapperPlan {
    pub location: String,
    pub ml_name: String,
    pub ml_doc: String,
}

/// Plans the fixed-signature wrapper for one wrapped host function: its
/// location tag is the host name followed by `()`, and the method-table
/// entry carries the exported name and the docstring.
pub fn impl_wrap(name: &str, func: &FunctionSpec) -> (w: WrapperPlan)
    ensures
        w.location@ == name@ + "()"@,
        w.ml_name@ == func.exported@,
        w.ml_doc@ == func.doc@,
{
    WrapperPlan {
        location: String::from_str(name).concat("()"),
        ml_name: String::from_str(func.exported.as_str()),
        ml_doc: String::from_str(func.doc.as_str()),
    }
}

/// Mathematical model of an [`InitFnDecl`].
pub struct InitFnDeclV {
    pub name: Seq<char>,
    pub body_fns: Seq<FnDeclV>,
    pub doc: Seq<char>,
}

/// The declaration the module-init marker is attached to: the init
/// function's name, the function declarations nested in its body, and its
/// documentation text.
pub struct InitFnDecl {
    pub name: String,
    pub body_fns: Vec<FnDecl>,
    pub doc: String,
}

impl View for InitFnDecl {
    type V = InitFnDeclV;

    open spec fn view(&self) -> InitFnDeclV {
        InitFnDeclV {
            name: self.name@,
            body_fns: self.body_fns@.map_values(|f: FnDecl| f@),
            doc: self.doc@,
        }
    }
}

/// Mathematical model of an [`ItemDecl`].
pub enum ItemDeclV {
    FnItemV(InitFnDeclV),
    OtherItemV,
}

/// The item the module-init marker was placed on: a function, or anything
/// else — which is a generation-time error.
pub enum ItemDecl {
    FnItem(InitFnDecl),
    OtherItem,
}

impl View for ItemDecl {
    type V = ItemDeclV;

    open spec fn view(&self) -> ItemDeclV {
        match self {
            ItemDecl::FnItem(f) => ItemDeclV::FnItemV(f@),
            ItemDecl::OtherItem => ItemDeclV::OtherItemV,
        }
    }
}

/// The view of a registration list.
pub open spec fn regs_view(rs: Seq<FnRegistration>) -> Seq<(Seq<char>, FunctionSpecV)> {
    rs.map_values(|r: FnRegistration| (r.module@, r.func@))
}

/// What walking an init body's nested functions yields, from `i` on: the
/// registrations of those carrying a complete export marker, in order, or
/// the first generation-time error.
pub open spec fn collect_regs(fns: Seq<FnDeclV>, i: int) -> Result<
    Seq<(Seq<char>, FunctionSpecV)>,
    GenErrV,
>
    decreases fns.len() - i,
{
    if i < 0 || i >= fns.len() {
        Ok(Seq::<(Seq<char>, FunctionSpecV)>::empty())
    } else {
        match wrap_fn_v(fns[i]) {
            Err(e) => Err(e),
            Ok(None) => collect_regs(fns, i + 1),
            Ok(Some(r)) => match collect_regs(fns, i + 1) {
                Ok(rest) => Ok(seq![r] + rest),
                Err(e) => Err(e),
            },
        }
    }
}

/// The plan for one annotated module initializer: the entry point's plan and
/// the registrations its body makes.
pub struct ModuleInitPlan {
    pub init: InitPlan,
    pub registrations: Vec<FnRegistration>,
}

/// Walks an init body's nested function declarations, wrapping each marked
/// one.
fn collect_regs_exec(fns: &Vec<FnDecl>) -> (r: Result<Vec<FnRegistration>, GenError>)
    ensures
        match r {
            Ok(rs) => collect_regs(fns@.map_values(|f: FnDecl| f@), 0) == Ok::<
                Seq<(Seq<char>, FunctionSpecV)>,
                GenErrV,
            >(regs_view(rs@)),
            Err(e) => collect_regs(fns@.map_values(|f: FnDecl| f@), 0) == Err::<
                Seq<(Seq<char>, FunctionSpecV)>,
                GenErrV,
            >(e@),
        },
{
    let ghost fv = fns@.map_values(|f: FnDecl| f@);
    let mut acc: Vec<FnRegistration> = Vec::new();
    let mut i: usize = 0;
    while i < fns.len()
        invariant
            i <= fns.len(),
            fv == fns@.map_values(|f: FnDecl| f@),
            fv.len() == fns@.len(),
            collect_regs(fv, 0) == (match collect_regs(fv, i as int) {
                Ok(rest) => Ok::<Seq<(Seq<char>, FunctionSpecV)>, GenErrV>(
                    regs_view(acc@) + rest,
                ),
                Err(e) => Err::<Seq<(Seq<char>, FunctionSpecV)>, GenErrV>(e),
            }),
        decreases fns.len() - i,
    {
        match wrap_fn(&fns[i]) {
            Err(e) => {
                return Err(e);
            },
            Ok(None) => {},
            Ok(Some(reg)) => {
                let ghost accpre = acc@;
                let ghost single = seq![(reg.module@, reg.func@)];
                acc.push(reg);
                proof {
                    assert(regs_view(acc@) =~= regs_view(accpre) + single);
                    match collect_regs(fv, i as int + 1) {
                        Ok(rest) => {
                            assert((regs_view(accpre) + single) + rest =~= regs_view(accpre) + (
                            single + rest));
                        },
                        Err(_) => {},
                    }
                }
            },
        }
        i += 1;
    }
    proof {
        assert(regs_view(acc@) + Seq::<(Seq<char>, FunctionSpecV)>::empty() =~= regs_view(acc@));
    }
    Ok(acc)
}

/// Builds the third-generation module-initializer plan from the item the
/// module-init marker is attached to: the item must be a function; each
/// marked function in its body is wrapped; the entry point is planned under
/// the `PyInit_` convention.
pub fn build_py3_module_init(item: &ItemDecl, modname: &str) -> (r: Result<
    ModuleInitPlan,
    GenError,
>)
    ensures
        build_ensures(item@, modname@, AbiGen::Py3, r),
{
    build_module_init(item, modname, true)
}

/// Builds the second-generation module-initializer plan, under the `init`
/// symbol convention; otherwise as the third-generation builder.
pub fn build_py2_module_init(item: &ItemDecl, modname: &str) -> (r: Result<
    ModuleInitPlan,
    GenError,
>)
    ensures
        build_ensures(item@, modname@, AbiGen::Py2, r),
{
    build_module_init(item, modname, false)
}

/// What a built initializer plan must be: for a function item, the
/// registrations are the body walk's result and the entry point follows the
/// generation's convention; anything else is rejected.
pub open spec fn build_ensures(
    item: ItemDeclV,
    modname: Seq<char>,
    abi: AbiGen,
    r: Result<ModuleInitPlan, GenError>,
) -> bool {
    match r {
        Ok(p) => match item {
            ItemDeclV::FnItemV(f) => collect_regs(f.body_fns, 0) == Ok::<
                Seq<(Seq<char>, FunctionSpecV)>,
                GenErrV,
            >(regs_view(p.registrations@)) && p.init.symbol@ == init_symbol_text(abi, modname)
                && p.init.module_name@ == modname && p.init.init_fn@ == f.name && p.init.abi == abi,
            ItemDeclV::OtherItemV => false,
        },
        Err(e) => match item {
            ItemDeclV::FnItemV(f) => collect_regs(f.body_fns, 0) == Err::<
                Seq<(Seq<char>, FunctionSpecV)>,
                GenErrV,
            >(e@),
            ItemDeclV::OtherItemV => e@ is NotAFunctionV,
        },
    }
}

/// The shared walk of both builders.
fn build_module_init(item: &ItemDecl, modname: &str, third_gen: bool) -> (r: Result<
    ModuleInitPlan,
    GenError,
>)
    ensures
        build_ensures(item@, modname@, if third_gen {
            AbiGen::Py3
        } else {
            AbiGen::Py2
        }, r),
{
    match item {
        ItemDecl::OtherItem => Err(GenError::NotAFunction),
        ItemDecl::FnItem(f) => {
            let registrations = match collect_regs_exec(&f.body_fns) {
                Ok(rs) => rs,
                Err(e) => {
                    return Err(e);
                },
            };
            let init = if third_gen {
                py3_init(f.name.as_str(), modname)
            } else {
                py2_init(f.name.as_str(), modname)
            };
            Ok(ModuleInitPlan { init, registrations })
        },
    }
}

} // verus!
