//! Registration of a position for monitoring.

use vstd::prelude::*;

use crate::errors::SolShieldError;
use crate::state::{MonitoredPosition, PositionStatus, ProtocolState, Pubkey};
use crate::DeFiProtocol;

verus! {

/// The position produced by a successful registration: owned by the caller,
/// `Active`, with a health factor of 0 ("never evaluated") and no rebalances.
pub open spec fn new_position(
    owner: Pubkey,
    protocol: DeFiProtocol,
    obligation_key: Pubkey,
    warn_threshold: u64,
    critical_threshold: u64,
    now: i64,
) -> MonitoredPosition {
    MonitoredPosition {
        owner,
        protocol,
        obligation_key,
        health_factor: 0,
        total_collateral_usd: 0,
        total_debt_usd: 0,
        warn_threshold,
        critical_threshold,
        status: PositionStatus::Active,
        rebalance_count: 0,
        last_check_ts: 0,
        last_rebalance_ts: 0,
        created_at: now,
    }
}

/// Validates the per-position thresholds, builds the new position and counts
/// it in the protocol state. Succeeds exactly when `warn > critical`; rejects
/// everything else with `InvalidThresholds` and changes nothing.
pub fn handler(
    state: &mut ProtocolState,
    owner: Pubkey,
    protocol: DeFiProtocol,
    obligation_key: Pubkey,
    warn_threshold: u64,
    critical_threshold: u64,
    now: i64,
) -> (r: Result<MonitoredPosition, SolShieldError>)
    requires
        old(state).total_positions < u64::MAX,
        now >= 0,
    ensures
        r is Ok <==> warn_threshold > critical_threshold,
        r is Err ==> r == Err::<MonitoredPosition, SolShieldError>(SolShieldError::InvalidThresholds)
            && *final(state) == *old(state),
        r matches Ok(p) ==> {
            &&& p == new_position(owner, protocol, obligation_key, warn_threshold, critical_threshold, now)
            &&& p.wf()
            &&& *final(state) == (ProtocolState {
                total_positions: (old(state).total_positions + 1) as u64,
                ..*old(state)
            })
        },
{
    if !(warn_threshold > critical_threshold) {
        return Err(SolShieldError::InvalidThresholds);
    }
    let position = MonitoredPosition {
        owner,
        protocol,
        obligation_key,
        health_factor: 0,
        total_collateral_usd: 0,
        total_debt_usd: 0,
        warn_threshold,
        critical_threshold,
        status: PositionStatus::Active,
        rebalance_count: 0,
        last_check_ts: 0,
        last_rebalance_ts: 0,
        created_at: now,
    };
    state.total_positions = state.total_positions + 1;
    Ok(position)
}

} // verus!
