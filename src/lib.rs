use vstd::prelude::*;

/// Lambda-calculus terms, substitution and variable names.
pub mod term;
/// Definitions, generated-definition inlining and binder renaming.
pub mod book;
/// Interaction nets: nodes, kinds and port links.
pub mod net;
/// Ordered queues of deferred nodes.
pub mod scope;
/// Reading a net back into a term, in linear and non-linear mode.
pub mod readback;
/// Properties of readback stated over its specification.
pub mod laws;

verus! {

} // verus!
