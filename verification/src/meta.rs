//! Normalized metadata: what the extractor produces from an annotated host
//! declaration, and what the synthesizers consume.  A `ParameterSpec` is
//! immutable once extracted; a `FunctionSpec` describes one annotated
//! function and is consumed once at generation time.

use vstd::prelude::*;

verus! {

/// The declared host type of a parameter or result, as far as the binding
/// protocol needs to classify it: the optional shapes mark a parameter that
/// may be omitted by the guest caller.
#[derive(Clone, Copy, PartialEq, Eq, Structural, Debug)]
pub enum HostType {
    IntTy,
    TextTy,
    OptIntTy,
    OptTextTy,
}

/// Whether a declared type has the optional shape, from which the optional
/// flag of a parameter is derived.
pub open spec fn is_optional_type(t: HostType) -> bool {
    t == HostType::OptIntTy || t == HostType::OptTextTy
}

/// Executable twin of [`is_optional_type`].
pub fn optional_type(t: HostType) -> (b: bool)
    ensures
        b == is_optional_type(t),
{
    match t {
        HostType::OptIntTy => true,
        HostType::OptTextTy => true,
        _ => false,
    }
}

/// Mathematical model of a [`ParameterSpec`].
pub struct ParamV {
    pub name: Seq<char>,
    pub ty: HostType,
    pub optional: bool,
}

/// One declared parameter: its name, its declared type, and whether the guest
/// caller may omit it.
#[derive(Debug)]
pub struct ParameterSpec {
    pub name: String,
    pub ty: HostType,
    pub optional: bool,
}

impl View for ParameterSpec {
    type V = ParamV;

    open spec fn view(&self) -> ParamV {
        ParamV { name: self.name@, ty: self.ty, optional: self.optional }
    }
}

/// The view of a whole parameter list.
pub open spec fn params_view(ps: Seq<ParameterSpec>) -> Seq<ParamV> {
    ps.map_values(|p: ParameterSpec| p@)
}

/// The kind of host callable a `FunctionSpec` describes.
#[derive(Clone, Copy, PartialEq, Eq, Structural, Debug)]
pub enum FnKind {
    Free,
    Method,
    Constructor,
    StaticMethod,
    ClassMethod,
}

/// Mathematical model of a [`FunctionSpec`].
pub struct FunctionSpecV {
    pub kind: FnKind,
    pub host_name: Seq<char>,
    pub exported: Seq<char>,
    pub params: Seq<ParamV>,
    pub takes_token: bool,
    pub doc: Seq<char>,
}

/// The normalized description of one annotated host function: its kind, the
/// host-side name, the name it is exported under, its ordered parameters,
/// whether it declared the runtime-lock token as its first parameter, and its
/// documentation text.  Consumed once at generation time.
#[derive(Debug)]
pub struct FunctionSpec {
    pub kind: FnKind,
    pub host_name: String,
    pub exported: String,
    pub params: Vec<ParameterSpec>,
    pub takes_token: bool,
    pub doc: String,
}

impl View for FunctionSpec {
    type V = FunctionSpecV;

    open spec fn view(&self) -> FunctionSpecV {
        FunctionSpecV {
            kind: self.kind,
            host_name: self.host_name@,
            exported: self.exported@,
            params: params_view(self.params@),
            takes_token: self.takes_token,
            doc: self.doc@,
        }
    }
}

} // verus!
