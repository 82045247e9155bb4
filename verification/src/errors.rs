//! The error taxonomy: terminal, synchronous rejections of an operation.

use vstd::prelude::*;

verus! {

/// Why an operation was rejected. Every error leaves the targeted records
/// exactly as they were: no partial effects are ever observable.
#[derive(Clone, Copy, PartialEq, Eq, Structural, Debug)]
pub enum SolShieldError {
    /// Caller is not the configured agent authority.
    UnauthorizedAgent,
    /// Caller is not the position's owner.
    UnauthorizedOwner,
    /// The position is currently paused.
    PositionPaused,
    /// The position is already closed.
    PositionClosed,
    /// The position is not paused.
    PositionNotPaused,
    /// Maximum positions per user exceeded (declared; not reachable from any
    /// operation here, which leaves the cap unenforced).
    MaxPositionsExceeded,
    /// Reported health factor must be greater than 0.
    InvalidHealthFactor,
    /// Warning threshold must be strictly greater than the critical one.
    InvalidThresholds,
    /// Health factor is healthy, no rebalance needed (declared; not reachable
    /// from any operation here).
    HealthFactorHealthy,
    /// Minimum delay between rebalances has not elapsed.
    RebalanceCooldown,
    /// Invalid protocol specified (declared; not reachable from any operation
    /// here).
    InvalidProtocol,
}

impl SolShieldError {
    /// The human-readable message paired with each machine-checkable code.
    pub fn message(&self) -> (r: &'static str)
        ensures
            (*self == SolShieldError::UnauthorizedAgent) ==> (r@ == "Unauthorized: only the agent authority can perform this action"@),
            (*self == SolShieldError::UnauthorizedOwner) ==> (r@ == "Unauthorized: only the position owner can perform this action"@),
            (*self == SolShieldError::PositionPaused) ==> (r@ == "Position is currently paused"@),
            (*self == SolShieldError::PositionClosed) ==> (r@ == "Position is already closed"@),
            (*self == SolShieldError::PositionNotPaused) ==> (r@ == "Position is not paused"@),
            (*self == SolShieldError::MaxPositionsExceeded) ==> (r@ == "Maximum positions per user exceeded"@),
            (*self == SolShieldError::InvalidHealthFactor) ==> (r@ == "Invalid health factor: must be greater than 0"@),
            (*self == SolShieldError::InvalidThresholds) ==> (r@ == "Invalid threshold: warn must be greater than critical"@),
            (*self == SolShieldError::HealthFactorHealthy) ==> (r@ == "Health factor is healthy, no rebalance needed"@),
            (*self == SolShieldError::RebalanceCooldown) ==> (r@ == "Rebalance cooldown not elapsed"@),
            (*self == SolShieldError::InvalidProtocol) ==> (r@ == "Invalid protocol specified"@),
    {
        match self {
            SolShieldError::UnauthorizedAgent => "Unauthorized: only the agent authority can perform this action",
            SolShieldError::UnauthorizedOwner => "Unauthorized: only the position owner can perform this action",
            SolShieldError::PositionPaused => "Position is currently paused",
            SolShieldError::PositionClosed => "Position is already closed",
            SolShieldError::PositionNotPaused => "Position is not paused",
            SolShieldError::MaxPositionsExceeded => "Maximum positions per user exceeded",
            SolShieldError::InvalidHealthFactor => "Invalid health factor: must be greater than 0",
            SolShieldError::InvalidThresholds => "Invalid threshold: warn must be greater than critical",
            SolShieldError::HealthFactorHealthy => "Health factor is healthy, no rebalance needed",
            SolShieldError::RebalanceCooldown => "Rebalance cooldown not elapsed",
            SolShieldError::InvalidProtocol => "Invalid protocol specified",
        }
    }
}

} // verus!
