//! The argument-binding protocol: given an ordered parameter list, a
//! positional-argument container and an optional keyword mapping, produce a
//! fully-typed host argument tuple or a single descriptive error.  Binding is
//! total and only reads the caller's containers.
//!
//! The protocol, in the order the checks run:
//! 1. more positional arguments than declared parameters is an error;
//! 2. a keyword naming no parameter, or naming one already bound
//!    positionally, is an error (the first such keyword is reported);
//! 3. a parameter with neither a positional nor a keyword value binds to its
//!    type's empty value when optional, else the first such parameter is
//!    reported as missing;
//! 4. each bound raw value is converted to the declared host type; the first
//!    failure is reported naming the parameter and the expected type.

use crate::errors::{ErrorKind, ErrorValue};
use crate::meta::{HostType, ParamV, ParameterSpec, params_view};
use crate::values::{
    GuestV, GuestVal, HostV, HostVal, convert, convert_v, default_of, default_v, guest_vals_view,
    host_vals_view,
};
use vstd::prelude::*;
use vstd::string::*;

verus! {

/// Mathematical model of a [`BindError`].
pub enum BindErrV {
    TooManyV,
    UnexpectedKeywordV(Seq<char>),
    GivenTwiceV(Seq<char>),
    MissingRequiredV(Seq<char>),
    WrongTypeV(Seq<char>, HostType),
}

/// Why binding failed: each variant names the offending argument where one
/// exists.
#[derive(Debug)]
pub enum BindError {
    /// More positional arguments than declared parameters.
    TooManyPositional,
    /// A keyword that names no declared parameter.
    UnexpectedKeyword(String),
    /// A keyword that names a parameter already bound positionally.
    ArgumentGivenTwice(String),
    /// A required parameter received neither a positional nor a keyword
    /// value.
    MissingRequired(String),
    /// A raw value did not convert to the parameter's declared type.
    WrongType(String, HostType),
}

impl View for BindError {
    type V = BindErrV;

    open spec fn view(&self) -> BindErrV {
        match self {
            BindError::TooManyPositional => BindErrV::TooManyV,
            BindError::UnexpectedKeyword(n) => BindErrV::UnexpectedKeywordV(n@),
            BindError::ArgumentGivenTwice(n) => BindErrV::GivenTwiceV(n@),
            BindError::MissingRequired(n) => BindErrV::MissingRequiredV(n@),
            BindError::WrongType(n, t) => BindErrV::WrongTypeV(n@, *t),
        }
    }
}

/// The view of a keyword mapping.
pub open spec fn kw_view(ks: Seq<(String, GuestVal)>) -> Seq<(Seq<char>, GuestV)> {
    ks.map_values(|p: (String, GuestVal)| (p.0@, p.1@))
}

/// The view of an optional keyword mapping: absence is the empty mapping.
pub open spec fn opt_kw_view(k: Option<Vec<(String, GuestVal)>>) -> Seq<(Seq<char>, GuestV)> {
    match k {
        Some(v) => kw_view(v@),
        None => Seq::<(Seq<char>, GuestV)>::empty(),
    }
}

/// First-match lookup of a name in a keyword mapping, from entry `j` on.
pub open spec fn kw_lookup_from(ks: Seq<(Seq<char>, GuestV)>, name: Seq<char>, j: int) -> Option<
    GuestV,
>
    decreases ks.len() - j,
{
    if j < 0 || j >= ks.len() {
        None
    } else if ks[j].0 == name {
        Some(ks[j].1)
    } else {
        kw_lookup_from(ks, name, j + 1)
    }
}

/// First-match lookup of a name in a keyword mapping.
pub open spec fn kw_lookup(ks: Seq<(Seq<char>, GuestV)>, name: Seq<char>) -> Option<GuestV> {
    kw_lookup_from(ks, name, 0)
}

/// Whether some declared parameter has this name.
pub open spec fn has_param(ps: Seq<ParamV>, name: Seq<char>) -> bool {
    exists|i: int| 0 <= i < ps.len() && ps[i].name == name
}

/// A keyword is unexpected when it names no declared parameter.
pub open spec fn kw_unexpected(ps: Seq<ParamV>, name: Seq<char>) -> bool {
    !has_param(ps, name)
}

/// A keyword collides when it names a parameter bound positionally.
pub open spec fn kw_duplicate(ps: Seq<ParamV>, nargs: int, name: Seq<char>) -> bool {
    exists|i: int| 0 <= i < nargs && i < ps.len() && ps[i].name == name
}

/// A keyword entry is rejected when it is unexpected or collides.
pub open spec fn kw_bad(ps: Seq<ParamV>, nargs: int, name: Seq<char>) -> bool {
    kw_unexpected(ps, name) || kw_duplicate(ps, nargs, name)
}

/// Index of the first rejected keyword entry, from `j` on.
pub open spec fn first_bad_kw(
    ps: Seq<ParamV>,
    nargs: int,
    ks: Seq<(Seq<char>, GuestV)>,
    j: int,
) -> Option<int>
    decreases ks.len() - j,
{
    if j < 0 || j >= ks.len() {
        None
    } else if kw_bad(ps, nargs, ks[j].0) {
        Some(j)
    } else {
        first_bad_kw(ps, nargs, ks, j + 1)
    }
}

/// The raw value supplied for parameter `i`: positionally when `i` is within
/// the positional container, else by keyword.
pub open spec fn raw_for(
    ps: Seq<ParamV>,
    args: Seq<GuestV>,
    ks: Seq<(Seq<char>, GuestV)>,
    i: int,
) -> Option<GuestV> {
    if i < args.len() {
        Some(args[i])
    } else {
        kw_lookup(ks, ps[i].name)
    }
}

/// Parameter `i` is missing when it is required and received no value.
pub open spec fn param_missing(
    ps: Seq<ParamV>,
    args: Seq<GuestV>,
    ks: Seq<(Seq<char>, GuestV)>,
    i: int,
) -> bool {
    raw_for(ps, args, ks, i) is None && !ps[i].optional
}

/// Index of the first missing required parameter, from `i` on.
pub open spec fn first_missing(
    ps: Seq<ParamV>,
    args: Seq<GuestV>,
    ks: Seq<(Seq<char>, GuestV)>,
    i: int,
) -> Option<int>
    decreases ps.len() - i,
{
    if i < 0 || i >= ps.len() {
        None
    } else if param_missing(ps, args, ks, i) {
        Some(i)
    } else {
        first_missing(ps, args, ks, i + 1)
    }
}

/// What conversion yields for parameter `i`: the supplied raw value converted
/// to the declared type, or the type's empty value when nothing was supplied.
pub open spec fn conv_for(
    ps: Seq<ParamV>,
    args: Seq<GuestV>,
    ks: Seq<(Seq<char>, GuestV)>,
    i: int,
) -> Option<HostV> {
    match raw_for(ps, args, ks, i) {
        Some(v) => convert_v(v, ps[i].ty),
        None => Some(default_v(ps[i].ty)),
    }
}

/// The bound host value for parameter `i`, where conversion succeeds.
pub open spec fn conv_val(
    ps: Seq<ParamV>,
    args: Seq<GuestV>,
    ks: Seq<(Seq<char>, GuestV)>,
    i: int,
) -> HostV {
    match conv_for(ps, args, ks, i) {
        Some(h) => h,
        None => HostV::IntV(0),
    }
}

/// Index of the first parameter whose conversion fails, from `i` on.
pub open spec fn first_badconv(
    ps: Seq<ParamV>,
    args: Seq<GuestV>,
    ks: Seq<(Seq<char>, GuestV)>,
    i: int,
) -> Option<int>
    decreases ps.len() - i,
{
    if i < 0 || i >= ps.len() {
        None
    } else if conv_for(ps, args, ks, i) is None {
        Some(i)
    } else {
        first_badconv(ps, args, ks, i + 1)
    }
}

/// What binding a call yields: the bound argument tuple, or the first error
/// in protocol order.
pub open spec fn bind_v(
    ps: Seq<ParamV>,
    args: Seq<GuestV>,
    ks: Seq<(Seq<char>, GuestV)>,
) -> Result<Seq<HostV>, BindErrV> {
    if args.len() > ps.len() {
        Err(BindErrV::TooManyV)
    } else {
        match first_bad_kw(ps, args.len() as int, ks, 0) {
            Some(j) => if kw_unexpected(ps, ks[j].0) {
                Err(BindErrV::UnexpectedKeywordV(ks[j].0))
            } else {
                Err(BindErrV::GivenTwiceV(ks[j].0))
            },
            None => match first_missing(ps, args, ks, 0) {
                Some(i) => Err(BindErrV::MissingRequiredV(ps[i].name)),
                None => match first_badconv(ps, args, ks, 0) {
                    Some(i) => Err(BindErrV::WrongTypeV(ps[i].name, ps[i].ty)),
                    None => Ok(Seq::new(ps.len(), |i: int| conv_val(ps, args, ks, i))),
                },
            },
        }
    }
}

/// The view of a binding result.
pub open spec fn bind_result_view(r: Result<Vec<HostVal>, BindError>) -> Result<
    Seq<HostV>,
    BindErrV,
> {
    match r {
        Ok(vals) => Ok(host_vals_view(vals@)),
        Err(e) => Err(e@),
    }
}

/// First-match lookup of a name in an executable keyword mapping.
fn kw_get(kvec: &Vec<(String, GuestVal)>, name: &String) -> (r: Option<GuestVal>)
    ensures
        match r {
            Some(v) => kw_lookup(kw_view(kvec@), name@) == Some(v@),
            None => kw_lookup(kw_view(kvec@), name@) is None,
        },
{
    let ghost ks = kw_view(kvec@);
    let mut j: usize = 0;
    while j < kvec.len()
        invariant
            0 <= j <= kvec.len(),
            ks == kw_view(kvec@),
            ks.len() == kvec@.len(),
            kw_lookup(ks, name@) == kw_lookup_from(ks, name@, j as int),
        decreases kvec.len() - j,
    {
        if kvec[j].0 == *name {
            assert(kw_lookup_from(ks, name@, j as int) == Some(ks[j as int].1));
            return Some(kvec[j].1.duplicate());
        }
        assert(kw_lookup_from(ks, name@, j as int) == kw_lookup_from(ks, name@, j as int + 1));
        j += 1;
    }
    None
}

/// First index of a parameter with this name.
fn find_param(params: &Vec<ParameterSpec>, name: &String) -> (r: Option<usize>)
    ensures
        match r {
            Some(i) => i < params@.len() && params_view(params@)[i as int].name == name@ && forall|
                k: int,
            | 0 <= k < i ==> params_view(params@)[k].name != name@,
            None => !has_param(params_view(params@), name@),
        },
{
    let ghost ps = params_view(params@);
    let mut i: usize = 0;
    while i < params.len()
        invariant
            0 <= i <= params.len(),
            ps == params_view(params@),
            ps.len() == params@.len(),
            forall|k: int| 0 <= k < i ==> ps[k].name != name@,
        decreases params.len() - i,
    {
        if params[i].name == *name {
            return Some(i);
        }
        i += 1;
    }
    None
}

/// Binds a call's positional and keyword arguments against a declared
/// parameter list, yielding the fully-typed argument tuple or the first
/// error in protocol order.  The caller's containers are only read.
pub fn bind(
    params: &Vec<ParameterSpec>,
    args: &Vec<GuestVal>,
    kwargs: &Option<Vec<(String, GuestVal)>>,
) -> (r: Result<Vec<HostVal>, BindError>)
    ensures
        bind_result_view(r) == bind_v(
            params_view(params@),
            guest_vals_view(args@),
            opt_kw_view(*kwargs),
        ),
{
    let ghost ps = params_view(params@);
    let ghost avs = guest_vals_view(args@);
    let ghost ks = opt_kw_view(*kwargs);

    if args.len() > params.len() {
        return Err(BindError::TooManyPositional);
    }
    let ghost nargs = avs.len() as int;

    // Protocol step 2: reject the first unexpected or colliding keyword.
    match kwargs {
        Some(kvec) => {
            let mut j: usize = 0;
            while j < kvec.len()
                invariant
                    0 <= j <= kvec.len(),
                    ks == kw_view(kvec@),
                    ks == opt_kw_view(*kwargs),
                    ks.len() == kvec@.len(),
                    ps == params_view(params@),
                    nargs == avs.len() as int,
                    nargs <= ps.len(),
                    args@.len() == avs.len(),
                    params@.len() == ps.len(),
                    first_bad_kw(ps, nargs, ks, 0) == first_bad_kw(ps, nargs, ks, j as int),
                decreases kvec.len() - j,
            {
                match find_param(params, &kvec[j].0) {
                    None => {
                        assert(kw_bad(ps, nargs, ks[j as int].0));
                        assert(first_bad_kw(ps, nargs, ks, j as int) == Some(j as int));
                        assert(kw_unexpected(ps, ks[j as int].0));
                        return Err(BindError::UnexpectedKeyword(String::from_str(kvec[j].0.as_str())));
                    },
                    Some(pi) => {
                        if pi < args.len() {
                            assert(kw_duplicate(ps, nargs, ks[j as int].0));
                            assert(first_bad_kw(ps, nargs, ks, j as int) == Some(j as int));
                            assert(!kw_unexpected(ps, ks[j as int].0));
                            return Err(
                                BindError::ArgumentGivenTwice(String::from_str(kvec[j].0.as_str())),
                            );
                        }
                    },
                }
                proof {
                    // The keyword names a parameter outside the positional
                    // prefix: with distinct lookups it is not rejected here.
                    if kw_duplicate(ps, nargs, ks[j as int].0) {
                        let i = choose|i: int|
                            0 <= i < nargs && i < ps.len() && ps[i].name == ks[j as int].0;
                        assert(false);
                    }
                    assert(!kw_bad(ps, nargs, ks[j as int].0));
                    assert(first_bad_kw(ps, nargs, ks, j as int) == first_bad_kw(
                        ps,
                        nargs,
                        ks,
                        j as int + 1,
                    ));
                }
                j += 1;
            }
            assert(first_bad_kw(ps, nargs, ks, j as int) is None);
        },
        None => {
            assert(ks.len() == 0);
            assert(first_bad_kw(ps, nargs, ks, 0) is None);
        },
    }

    // Protocol steps 1 and 3: gather the raw value of each parameter; the
    // first required parameter without one is reported missing.
    let mut raws: Vec<Option<GuestVal>> = Vec::new();
    let mut i: usize = 0;
    while i < params.len()
        invariant
            0 <= i <= params.len(),
            ps == params_view(params@),
            avs == guest_vals_view(args@),
            ks == opt_kw_view(*kwargs),
            args@.len() == avs.len(),
            params@.len() == ps.len(),
            avs.len() <= ps.len(),
            first_bad_kw(ps, avs.len() as int, ks, 0) is None,
            raws@.len() == i,
            forall|k: int|
                0 <= k < i ==> match #[trigger] raws@[k] {
                    Some(v) => raw_for(ps, avs, ks, k) == Some(v@),
                    None => raw_for(ps, avs, ks, k) is None,
                },
            first_missing(ps, avs, ks, 0) == first_missing(ps, avs, ks, i as int),
        decreases params.len() - i,
    {
        let raw: Option<GuestVal> = if i < args.len() {
            Some(args[i].duplicate())
        } else {
            match kwargs {
                Some(kvec) => kw_get(kvec, &params[i].name),
                None => None,
            }
        };
        if raw.is_none() && !params[i].optional {
            assert(param_missing(ps, avs, ks, i as int));
            assert(first_missing(ps, avs, ks, i as int) == Some(i as int));
            return Err(BindError::MissingRequired(String::from_str(params[i].name.as_str())));
        }
        assert(!param_missing(ps, avs, ks, i as int));
        assert(first_missing(ps, avs, ks, i as int) == first_missing(ps, avs, ks, i as int + 1));
        raws.push(raw);
        i += 1;
    }
    assert(first_missing(ps, avs, ks, 0) is None);

    // Protocol step 4: convert each raw value to its declared host type; the
    // first failure names the parameter and the expected type.
    let mut out: Vec<HostVal> = Vec::new();
    let mut i2: usize = 0;
    while i2 < params.len()
        invariant
            0 <= i2 <= params.len(),
            ps == params_view(params@),
            avs == guest_vals_view(args@),
            ks == opt_kw_view(*kwargs),
            params@.len() == ps.len(),
            avs.len() <= ps.len(),
            first_bad_kw(ps, avs.len() as int, ks, 0) is None,
            first_missing(ps, avs, ks, 0) is None,
            raws@.len() == ps.len(),
            forall|k: int|
                0 <= k < ps.len() ==> match #[trigger] raws@[k] {
                    Some(v) => raw_for(ps, avs, ks, k) == Some(v@),
                    None => raw_for(ps, avs, ks, k) is None,
                },
            out@.len() == i2,
            forall|k: int| 0 <= k < i2 ==> (#[trigger] out@[k])@ == conv_val(ps, avs, ks, k),
            first_badconv(ps, avs, ks, 0) == first_badconv(ps, avs, ks, i2 as int),
        decreases params.len() - i2,
    {
        let converted: HostVal;
        match &raws[i2] {
            Some(v) => {
                match convert(v, params[i2].ty) {
                    Some(h) => {
                        converted = h;
                    },
                    None => {
                        assert(conv_for(ps, avs, ks, i2 as int) is None);
                        assert(first_badconv(ps, avs, ks, i2 as int) == Some(i2 as int));
                        return Err(
                            BindError::WrongType(
                                String::from_str(params[i2].name.as_str()),
                                params[i2].ty,
                            ),
                        );
                    },
                }
            },
            None => {
                converted = default_of(params[i2].ty);
            },
        }
        assert(conv_for(ps, avs, ks, i2 as int) == Some(converted@));
        assert(first_badconv(ps, avs, ks, i2 as int) == first_badconv(ps, avs, ks, i2 as int + 1));
        out.push(converted);
        i2 += 1;
    }
    assert(first_badconv(ps, avs, ks, 0) is None);
    assert(host_vals_view(out@) =~= Seq::new(ps.len(), |k: int| conv_val(ps, avs, ks, k)));
    Ok(out)
}

/// What the first rejected keyword from `j` on is: its index is minimal, and
/// absence means no keyword from `j` on is rejected.
proof fn lemma_first_bad_kw_props(ps: Seq<ParamV>, nargs: int, ks: Seq<(Seq<char>, GuestV)>, j: int)
    requires
        0 <= j,
    ensures
        match first_bad_kw(ps, nargs, ks, j) {
            Some(b) => j <= b < ks.len() && kw_bad(ps, nargs, ks[b].0) && forall|k: int|
                j <= k < b ==> !kw_bad(ps, nargs, #[trigger] ks[k].0),
            None => forall|k: int| j <= k < ks.len() ==> !kw_bad(ps, nargs, #[trigger] ks[k].0),
        },
    decreases ks.len() - j,
{
    if j < ks.len() && !kw_bad(ps, nargs, ks[j].0) {
        lemma_first_bad_kw_props(ps, nargs, ks, j + 1);
    }
}

/// What the first missing required parameter from `i` on is.
proof fn lemma_first_missing_props(
    ps: Seq<ParamV>,
    args: Seq<GuestV>,
    ks: Seq<(Seq<char>, GuestV)>,
    i: int,
)
    requires
        0 <= i,
    ensures
        match first_missing(ps, args, ks, i) {
            Some(m) => i <= m < ps.len() && param_missing(ps, args, ks, m) && forall|k: int|
                i <= k < m ==> !param_missing(ps, args, ks, k),
            None => forall|k: int| i <= k < ps.len() ==> !param_missing(ps, args, ks, k),
        },
    decreases ps.len() - i,
{
    if i < ps.len() && !param_missing(ps, args, ks, i) {
        lemma_first_missing_props(ps, args, ks, i + 1);
    }
}

/// What the first failing conversion from `i` on is.
proof fn lemma_first_badconv_props(
    ps: Seq<ParamV>,
    args: Seq<GuestV>,
    ks: Seq<(Seq<char>, GuestV)>,
    i: int,
)
    requires
        0 <= i,
    ensures
        match first_badconv(ps, args, ks, i) {
            Some(m) => i <= m < ps.len() && conv_for(ps, args, ks, m) is None && forall|k: int|
                i <= k < m ==> conv_for(ps, args, ks, k) is Some,
            None => forall|k: int| i <= k < ps.len() ==> conv_for(ps, args, ks, k) is Some,
        },
    decreases ps.len() - i,
{
    if i < ps.len() && conv_for(ps, args, ks, i) is Some {
        lemma_first_badconv_props(ps, args, ks, i + 1);
    }
}

/// A call that stays within the declared parameters, uses only consistent
/// keywords (each naming a parameter that is not bound positionally),
/// supplies a convertible value for every required parameter — optional ones
/// may be omitted — binds successfully.
pub proof fn lemma_consistent_call_binds(
    ps: Seq<ParamV>,
    args: Seq<GuestV>,
    ks: Seq<(Seq<char>, GuestV)>,
)
    requires
        args.len() <= ps.len(),
        forall|j: int| 0 <= j < ks.len() ==> !kw_bad(ps, args.len() as int, #[trigger] ks[j].0),
        forall|i: int|
            0 <= i < ps.len() ==> (ps[i].optional || raw_for(ps, args, ks, i) is Some),
        forall|i: int| 0 <= i < ps.len() ==> conv_for(ps, args, ks, i) is Some,
    ensures
        bind_v(ps, args, ks) is Ok,
{
    lemma_first_bad_kw_props(ps, args.len() as int, ks, 0);
    lemma_first_missing_props(ps, args, ks, 0);
    lemma_first_badconv_props(ps, args, ks, 0);
}

/// A call that omits a required parameter fails, and the error names a
/// parameter that is in fact required and unsupplied (the first one, in
/// declaration order).
pub proof fn lemma_missing_required_is_named(
    ps: Seq<ParamV>,
    args: Seq<GuestV>,
    ks: Seq<(Seq<char>, GuestV)>,
)
    requires
        args.len() <= ps.len(),
        forall|j: int| 0 <= j < ks.len() ==> !kw_bad(ps, args.len() as int, #[trigger] ks[j].0),
        exists|i: int| 0 <= i < ps.len() && param_missing(ps, args, ks, i),
    ensures
        exists|i: int|
            0 <= i < ps.len() && param_missing(ps, args, ks, i) && bind_v(ps, args, ks) == Err::<
                Seq<HostV>,
                BindErrV,
            >(BindErrV::MissingRequiredV(ps[i].name)),
{
    lemma_first_bad_kw_props(ps, args.len() as int, ks, 0);
    lemma_first_missing_props(ps, args, ks, 0);
    let w = choose|i: int| 0 <= i < ps.len() && param_missing(ps, args, ks, i);
    match first_missing(ps, args, ks, 0) {
        Some(m) => {
            assert(param_missing(ps, args, ks, m) && bind_v(ps, args, ks) == Err::<
                Seq<HostV>,
                BindErrV,
            >(BindErrV::MissingRequiredV(ps[m].name)));
        },
        None => {
            assert(!param_missing(ps, args, ks, w));
        },
    }
}

/// A call supplying more positional arguments than declared parameters, or a
/// keyword naming no declared parameter, is rejected before any binding: the
/// result is an unexpected-argument error, never a bound tuple.
pub proof fn lemma_unexpected_argument_rejected(
    ps: Seq<ParamV>,
    args: Seq<GuestV>,
    ks: Seq<(Seq<char>, GuestV)>,
)
    requires
        args.len() > ps.len() || exists|j: int|
            0 <= j < ks.len() && kw_unexpected(ps, #[trigger] ks[j].0),
    ensures
        match bind_v(ps, args, ks) {
            Err(e) => e is TooManyV || e is UnexpectedKeywordV || e is GivenTwiceV,
            Ok(_) => false,
        },
{
    if args.len() <= ps.len() {
        lemma_first_bad_kw_props(ps, args.len() as int, ks, 0);
        let w = choose|j: int| 0 <= j < ks.len() && kw_unexpected(ps, ks[j].0);
        match first_bad_kw(ps, args.len() as int, ks, 0) {
            Some(b) => {},
            None => {
                assert(!kw_bad(ps, args.len() as int, ks[w].0));
            },
        }
    }
}

/// The text of a declared host type, as argument errors print it.
pub open spec fn type_text(ty: HostType) -> Seq<char> {
    match ty {
        HostType::IntTy => "int"@,
        HostType::TextTy => "str"@,
        HostType::OptIntTy => "optional int"@,
        HostType::OptTextTy => "optional str"@,
    }
}

/// Executable twin of [`type_text`].
pub fn type_text_of(ty: HostType) -> (r: String)
    ensures
        r@ == type_text(ty),
{
    match ty {
        HostType::IntTy => String::from_str("int"),
        HostType::TextTy => String::from_str("str"),
        HostType::OptIntTy => String::from_str("optional int"),
        HostType::OptTextTy => String::from_str("optional str"),
    }
}

/// The message a binding error carries, naming the function and, where one
/// exists, the offending parameter or keyword.
pub open spec fn bind_err_text(fname: Seq<char>, e: BindErrV) -> Seq<char> {
    match e {
        BindErrV::TooManyV => fname + "() takes too many positional arguments"@,
        BindErrV::UnexpectedKeywordV(n) => fname + "() got an unexpected keyword argument '"@ + n
            + "'"@,
        BindErrV::GivenTwiceV(n) => fname + "() got multiple values for argument '"@ + n + "'"@,
        BindErrV::MissingRequiredV(n) => fname + "() missing required argument '"@ + n + "'"@,
        BindErrV::WrongTypeV(n, ty) => fname + "() argument '"@ + n + "' expected "@ + type_text(
            ty,
        ),
    }
}

/// Turns a binding error into the error value deposited in the guest error
/// slot: an argument-shape error of the guest's type-error class whose
/// message names the function and the offending argument.
pub fn bind_error_value(fname: &str, e: &BindError) -> (r: ErrorValue)
    ensures
        r@.kind == ErrorKind::TypeError,
        r@.message == bind_err_text(fname@, e@),
{
    let base = String::from_str(fname);
    match e {
        BindError::TooManyPositional => {
            let m = base.concat("() takes too many positional arguments");
            ErrorValue::new(ErrorKind::TypeError, m)
        },
        BindError::UnexpectedKeyword(n) => {
            let m = base.concat("() got an unexpected keyword argument '").concat(n.as_str())
                .concat("'");
            proof {
                assert(m@ =~= bind_err_text(fname@, e@));
            }
            ErrorValue::new(ErrorKind::TypeError, m)
        },
        BindError::ArgumentGivenTwice(n) => {
            let m = base.concat("() got multiple values for argument '").concat(n.as_str()).concat(
                "'",
            );
            proof {
                assert(m@ =~= bind_err_text(fname@, e@));
            }
            ErrorValue::new(ErrorKind::TypeError, m)
        },
        BindError::MissingRequired(n) => {
            let m = base.concat("() missing required argument '").concat(n.as_str()).concat("'");
            proof {
                assert(m@ =~= bind_err_text(fname@, e@));
            }
            ErrorValue::new(ErrorKind::TypeError, m)
        },
        BindError::WrongType(n, ty) => {
            let m = base.concat("() argument '").concat(n.as_str()).concat("' expected ").concat(
                type_text_of(*ty).as_str(),
            );
            proof {
                assert(m@ =~= bind_err_text(fname@, e@));
            }
            ErrorValue::new(ErrorKind::TypeError, m)
        },
    }
}

} // verus!
