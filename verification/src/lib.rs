//! A verified model of a host-to-guest bridging layer: it lets host-language
//! functions, classes and modules be exposed to an embedded dynamic-language
//! interpreter (the guest runtime) that communicates through fixed-signature
//! entry points, reference-counted object pointers and a thread-local error
//! slot.
//!
//! The guest runtime itself is out of scope and is modelled as explicit state
//! (`runtime::Runtime`): an object heap, the error slot, the import registry
//! and the type-descriptor table.  Everything this layer decides — how
//! positional and keyword arguments bind to a declared parameter list, when a
//! native entry point returns null, how a module initializer fails without
//! exposing a half-populated module, how wrapper operations translate null
//! results into error values — is executable, contracted and proved here.

pub mod binding;
pub mod entry;
pub mod errors;
pub mod hostfn;
pub mod meta;
pub mod module;
pub mod runtime;
pub mod synth;
pub mod values;
