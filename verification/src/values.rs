//! Values at the boundary: raw guest values as they arrive in an argument
//! container, strongly-typed host values as the binding protocol produces
//! them, and the conversions between the two.

use crate::meta::HostType;
use vstd::prelude::*;
use vstd::string::*;

verus! {

/// Mathematical model of a [`GuestVal`].
pub enum GuestV {
    NoneV,
    IntV(int),
    TextV(Seq<char>),
    ObjRefV(int),
}

/// A raw guest value, as a read-only view of an argument container yields it:
/// the guest's none value, an integer, a text, or a reference to an object in
/// the guest heap.
#[derive(Debug, PartialEq)]
pub enum GuestVal {
    NoneVal,
    Int(i64),
    Text(String),
    ObjRef(usize),
}

impl View for GuestVal {
    type V = GuestV;

    open spec fn view(&self) -> GuestV {
        match self {
            GuestVal::NoneVal => GuestV::NoneV,
            GuestVal::Int(i) => GuestV::IntV(*i as int),
            GuestVal::Text(s) => GuestV::TextV(s@),
            GuestVal::ObjRef(o) => GuestV::ObjRefV(*o as int),
        }
    }
}

impl GuestVal {
    /// A copy with the same model, for handing one raw value to several
    /// consumers.
    pub fn duplicate(&self) -> (r: GuestVal)
        ensures
            r@ == self@,
    {
        match self {
            GuestVal::NoneVal => GuestVal::NoneVal,
            GuestVal::Int(i) => GuestVal::Int(*i),
            GuestVal::Text(s) => GuestVal::Text(String::from_str(s.as_str())),
            GuestVal::ObjRef(o) => GuestVal::ObjRef(*o),
        }
    }
}

/// Equality of two string slices, by their character sequences.
pub fn str_eq(a: &str, b: &str) -> (r: bool)
    ensures
        r == (a@ == b@),
{
    let sa = String::from_str(a);
    let sb = String::from_str(b);
    sa == sb
}

/// The view of a positional-argument container.
pub open spec fn guest_vals_view(vs: Seq<GuestVal>) -> Seq<GuestV> {
    vs.map_values(|v: GuestVal| v@)
}

/// Mathematical model of a [`HostVal`].
pub enum HostV {
    IntV(int),
    TextV(Seq<char>),
    OptIntV(Option<int>),
    OptTextV(Option<Seq<char>>),
}

/// A strongly-typed host value, as the binding protocol hands it to the
/// wrapped host function.
#[derive(Debug, PartialEq)]
pub enum HostVal {
    Int(i64),
    Text(String),
    OptInt(Option<i64>),
    OptText(Option<String>),
}

impl View for HostVal {
    type V = HostV;

    open spec fn view(&self) -> HostV {
        match self {
            HostVal::Int(i) => HostV::IntV(*i as int),
            HostVal::Text(s) => HostV::TextV(s@),
            HostVal::OptInt(o) => match o {
                Some(i) => HostV::OptIntV(Some(*i as int)),
                None => HostV::OptIntV(None),
            },
            HostVal::OptText(o) => match o {
                Some(s) => HostV::OptTextV(Some(s@)),
                None => HostV::OptTextV(None),
            },
        }
    }
}

impl HostVal {
    /// A copy with the same model.
    pub fn duplicate(&self) -> (r: HostVal)
        ensures
            r@ == self@,
    {
        match self {
            HostVal::Int(i) => HostVal::Int(*i),
            HostVal::Text(s) => HostVal::Text(String::from_str(s.as_str())),
            HostVal::OptInt(o) => match o {
                Some(i) => HostVal::OptInt(Some(*i)),
                None => HostVal::OptInt(None),
            },
            HostVal::OptText(o) => match o {
                Some(s) => HostVal::OptText(Some(String::from_str(s.as_str()))),
                None => HostVal::OptText(None),
            },
        }
    }
}

/// The view of a bound argument tuple.
pub open spec fn host_vals_view(vs: Seq<HostVal>) -> Seq<HostV> {
    vs.map_values(|v: HostVal| v@)
}

/// The view of an optional host value, as conversion results carry one.
pub open spec fn opt_host_view(r: Option<HostVal>) -> Option<HostV> {
    match r {
        Some(h) => Some(h@),
        None => None,
    }
}

/// What converting a raw guest value to a declared host type yields: the
/// typed value, or nothing where the value does not have that type.  The
/// guest none value converts to the empty value of an optional type and to
/// nothing else.
pub open spec fn convert_v(v: GuestV, ty: HostType) -> Option<HostV> {
    match ty {
        HostType::IntTy => match v {
            GuestV::IntV(i) => Some(HostV::IntV(i)),
            _ => None,
        },
        HostType::TextTy => match v {
            GuestV::TextV(s) => Some(HostV::TextV(s)),
            _ => None,
        },
        HostType::OptIntTy => match v {
            GuestV::NoneV => Some(HostV::OptIntV(None)),
            GuestV::IntV(i) => Some(HostV::OptIntV(Some(i))),
            _ => None,
        },
        HostType::OptTextTy => match v {
            GuestV::NoneV => Some(HostV::OptTextV(None)),
            GuestV::TextV(s) => Some(HostV::OptTextV(Some(s))),
            _ => None,
        },
    }
}

/// Converts a raw guest value to a declared host type.
pub fn convert(v: &GuestVal, ty: HostType) -> (r: Option<HostVal>)
    ensures
        opt_host_view(r) == convert_v(v@, ty),
{
    match ty {
        HostType::IntTy => match v {
            GuestVal::Int(i) => Some(HostVal::Int(*i)),
            _ => None,
        },
        HostType::TextTy => match v {
            GuestVal::Text(s) => Some(HostVal::Text(String::from_str(s.as_str()))),
            _ => None,
        },
        HostType::OptIntTy => match v {
            GuestVal::NoneVal => Some(HostVal::OptInt(None)),
            GuestVal::Int(i) => Some(HostVal::OptInt(Some(*i))),
            _ => None,
        },
        HostType::OptTextTy => match v {
            GuestVal::NoneVal => Some(HostVal::OptText(None)),
            GuestVal::Text(s) => Some(HostVal::OptText(Some(String::from_str(s.as_str())))),
            _ => None,
        },
    }
}

/// The empty value of a declared type, bound to an optional parameter that
/// received neither a positional nor a keyword value.
pub open spec fn default_v(ty: HostType) -> HostV {
    match ty {
        HostType::IntTy => HostV::IntV(0),
        HostType::TextTy => HostV::TextV(Seq::<char>::empty()),
        HostType::OptIntTy => HostV::OptIntV(None),
        HostType::OptTextTy => HostV::OptTextV(None),
    }
}

/// Executable twin of [`default_v`].
pub fn default_of(ty: HostType) -> (r: HostVal)
    ensures
        r@ == default_v(ty),
{
    match ty {
        HostType::IntTy => HostVal::Int(0),
        HostType::TextTy => HostVal::Text(String::new()),
        HostType::OptIntTy => HostVal::OptInt(None),
        HostType::OptTextTy => HostVal::OptText(None),
    }
}

/// What a host result value becomes as a guest object value, under the
/// result-conversion policy: optional emptiness becomes the guest none value.
pub open spec fn host_to_guest_v(h: HostV) -> GuestV {
    match h {
        HostV::IntV(i) => GuestV::IntV(i),
        HostV::TextV(s) => GuestV::TextV(s),
        HostV::OptIntV(o) => match o {
            Some(i) => GuestV::IntV(i),
            None => GuestV::NoneV,
        },
        HostV::OptTextV(o) => match o {
            Some(s) => GuestV::TextV(s),
            None => GuestV::NoneV,
        },
    }
}

/// Converts a host result value into the guest value it is returned as.
pub fn host_to_guest(h: HostVal) -> (r: GuestVal)
    ensures
        r@ == host_to_guest_v(h@),
{
    match h {
        HostVal::Int(i) => GuestVal::Int(i),
        HostVal::Text(s) => GuestVal::Text(s),
        HostVal::OptInt(o) => match o {
            Some(i) => GuestVal::Int(i),
            None => GuestVal::NoneVal,
        },
        HostVal::OptText(o) => match o {
            Some(s) => GuestVal::Text(s),
            None => GuestVal::NoneVal,
        },
    }
}

} // verus!
