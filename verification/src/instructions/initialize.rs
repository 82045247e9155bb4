//! One-time protocol initialization.

use vstd::prelude::*;

use crate::errors::SolShieldError;
use crate::state::{ProtocolState, Pubkey};
use crate::ProtocolConfig;

verus! {

/// The protocol state produced by a successful initialization: the caller
/// becomes the authority, thresholds and policy fields are taken from the
/// configuration, and every counter starts at zero.
pub open spec fn initial_state(authority: Pubkey, config: ProtocolConfig) -> ProtocolState {
    ProtocolState {
        authority,
        agent_authority: config.agent_authority,
        default_warn_threshold: config.default_warn_threshold,
        default_critical_threshold: config.default_critical_threshold,
        max_positions_per_user: config.max_positions_per_user,
        rebalance_fee_bps: config.rebalance_fee_bps,
        total_positions: 0,
        total_rebalances: 0,
        total_value_protected: 0,
    }
}

/// Validates the configured thresholds and builds the protocol state.
/// Succeeds exactly when `warn > critical`; rejects everything else with
/// `InvalidThresholds`.
pub fn handler(authority: Pubkey, config: ProtocolConfig) -> (r: Result<
    ProtocolState,
    SolShieldError,
>)
    ensures
        r is Ok <==> config.default_warn_threshold > config.default_critical_threshold,
        r is Err ==> r == Err::<ProtocolState, SolShieldError>(SolShieldError::InvalidThresholds),
        r matches Ok(s) ==> s == initial_state(authority, config) && s.wf(),
{
    if !(config.default_warn_threshold > config.default_critical_threshold) {
        return Err(SolShieldError::InvalidThresholds);
    }
    Ok(ProtocolState {
        authority,
        agent_authority: config.agent_authority,
        default_warn_threshold: config.default_warn_threshold,
        default_critical_threshold: config.default_critical_threshold,
        max_positions_per_user: config.max_positions_per_user,
        rebalance_fee_bps: config.rebalance_fee_bps,
        total_positions: 0,
        total_rebalances: 0,
        total_value_protected: 0,
    })
}

} // verus!
