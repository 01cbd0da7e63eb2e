use vstd::prelude::*;

verus! {

/// Opaque type of the engine's tile builder; only ever seen behind a pointer.
pub struct RawBuilderPtr {
    _private: [u8; 0],
}

/// Opaque type of the engine's navigation structure.
pub struct RawNavmeshPtr {
    _private: [u8; 0],
}

/// Opaque type of one of the engine's query objects.
pub struct RawNavqueryPtr {
    _private: [u8; 0],
}

/// Opaque type of the engine's crowd simulation.
pub struct RawCrowdPtr {
    _private: [u8; 0],
}

/// State of a crowd agent, as the crowd simulation reports it.
#[derive(Clone, Copy, Debug, PartialEq, Eq, Structural)]
pub enum CrowdAgentState {
    /// The agent is not in a valid state.
    DtCrowdagentStateInvalid,
    /// The agent is traversing a normal navigation mesh polygon.
    DtCrowdagentStateWalking,
    /// The agent is traversing an off-mesh connection.
    DtCrowdagentStateOffmesh,
}

} // verus!
