//! Semantic analysis pass of a CDDL (RFC 8610) schema: walks the parsed
//! abstract syntax tree of each rule, interprets control operators, classifies
//! the structural shape of every definition (alias, wrapper, optional, record,
//! table, tagged data, type choice, group choice), synthesizes names for
//! anonymous constructs, and registers the results into an intermediate type
//! catalog for downstream CBOR codec generation.

pub mod ast;
pub mod catalog;
pub mod control;
pub mod group;
pub mod lower;
pub mod parsing;
pub mod ir;
pub mod laws;
pub mod names;

use vstd::prelude::*;

verus! {

/// Why a schema was rejected. Diagnostics are fatal by design: the pass
/// either registers a rule or aborts the pipeline with one of these kinds.
#[derive(Clone, Copy, Debug, PartialEq, Eq, Structural)]
pub enum Error {
    /// CDDL the grammar allows but this pass does not implement
    /// (for example the `.default` control, or generics on plain groups).
    SyntaxUnsupported,
    /// CDDL that violates semantics this pass enforces (a map field without
    /// a key, nested tags, `.cbor` on a non-bytes type, arithmetic overflow
    /// while evaluating a control operator).
    InvalidSchema,
    /// A name was referenced in a context that forces eager resolution
    /// (a tagged rule over a controlled typename) before it was registered.
    UnresolvedReference,
    /// An AST shape the upstream grammar never produces.
    Unreachable,
}

} // verus!
