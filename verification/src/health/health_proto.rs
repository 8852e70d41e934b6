//! Messages of the health service, as plain values.

use vstd::prelude::*;

verus! {

/// The state of the engine. All states but readiness are kept by their code.
#[derive(Debug, Clone, Copy, PartialEq, Eq, Structural)]
pub enum EngineStatus {
    Ready,
    Other(i32),
}

#[derive(Debug, Clone, PartialEq)]
pub struct HealthResponse {
    pub status: EngineStatus,
}

} // verus!
