//! Typed failures of graph evaluation.  Every pull returns a result; the
//! first failure in a pull chain propagates unchanged to the caller.

use vstd::prelude::*;

verus! {

/// Why a pull or an edge insertion failed.
#[derive(Clone, Copy, Debug, PartialEq, Eq, Structural)]
pub enum GraphError {
    /// The requested target pin has no incoming edge and no fallback value.
    UnconnectedTargetPin,
    /// An edge names a node that the graph does not contain.
    NodeNotFound,
    /// Pin specifications are incompatible, detected at edge-insertion time.
    TypeMismatch,
    /// A parameter pin carried a different value variant than requested.
    MissingParameter,
    /// Cached time data was read before it was written this frame.
    PassOrderingViolation,
    /// A context operation needed a current node identity and none was set.
    MissingNodeContext,
    /// The pull chain exceeded the context's depth budget.
    RecursionLimit,
}

} // verus!
