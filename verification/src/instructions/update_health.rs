//! Agent-reported health updates, driving the lifecycle state machine.

use vstd::prelude::*;

use crate::errors::SolShieldError;
use crate::guard::require_agent;
use crate::state::{MonitoredPosition, PositionStatus, ProtocolState, Pubkey};

verus! {

/// The threshold table: a reported health factor lands a position in exactly
/// one of `Critical` (below the critical threshold), `Warning` (at or above
/// critical but below warning) or `Active` (at or above warning).
pub open spec fn status_for_health(health_factor: u64, warn_threshold: u64, critical_threshold: u64) -> PositionStatus {
    if health_factor < critical_threshold {
        PositionStatus::Critical
    } else if health_factor < warn_threshold {
        PositionStatus::Warning
    } else {
        PositionStatus::Active
    }
}

/// The position as a successful health update at time `now` leaves it: the
/// reported valuation is stored, the check timestamp advances, and the status
/// follows the threshold table. Nothing else moves.
pub open spec fn health_updated(
    p: MonitoredPosition,
    health_factor: u64,
    total_collateral_usd: u64,
    total_debt_usd: u64,
    now: i64,
) -> MonitoredPosition {
    MonitoredPosition {
        health_factor,
        total_collateral_usd,
        total_debt_usd,
        last_check_ts: now,
        status: status_for_health(health_factor, p.warn_threshold, p.critical_threshold),
        ..p
    }
}

/// Totality of the health-update state machine: under valid thresholds every
/// reported health factor lands in exactly one of `Active`, `Warning` and
/// `Critical`, per the threshold table, and never in `Paused` or `Closed`.
pub proof fn lemma_status_totality(health_factor: u64, warn_threshold: u64, critical_threshold: u64)
    requires
        warn_threshold > critical_threshold,
    ensures
        status_for_health(health_factor, warn_threshold, critical_threshold)
            == PositionStatus::Critical <==> health_factor < critical_threshold,
        status_for_health(health_factor, warn_threshold, critical_threshold)
            == PositionStatus::Warning <==> critical_threshold <= health_factor < warn_threshold,
        status_for_health(health_factor, warn_threshold, critical_threshold)
            == PositionStatus::Active <==> health_factor >= warn_threshold,
        status_for_health(health_factor, warn_threshold, critical_threshold) != PositionStatus::Paused,
        status_for_health(health_factor, warn_threshold, critical_threshold) != PositionStatus::Closed,
{
}

/// Applies an agent-reported health factor and valuation to a position.
/// The guard runs first: only the agent authority is admitted. A health
/// factor of 0 is rejected (`InvalidHealthFactor`: 0 is reserved to mean
/// "never evaluated"), as is any update while paused (`PositionPaused`) or
/// closed (`PositionClosed`). Rejections leave the position untouched.
pub fn handler(
    state: &ProtocolState,
    position: &mut MonitoredPosition,
    agent: &Pubkey,
    health_factor: u64,
    total_collateral_usd: u64,
    total_debt_usd: u64,
    now: i64,
) -> (r: Result<(), SolShieldError>)
    requires
        now >= 0,
    ensures
        r is Ok <==> {
            &&& agent@ == state.agent_authority@
            &&& health_factor > 0
            &&& old(position).status != PositionStatus::Paused
            &&& old(position).status != PositionStatus::Closed
        },
        r is Err ==> *final(position) == *old(position),
        agent@ != state.agent_authority@ ==> r == Err::<(), SolShieldError>(
            SolShieldError::UnauthorizedAgent,
        ),
        agent@ == state.agent_authority@ && health_factor == 0 ==> r == Err::<(), SolShieldError>(
            SolShieldError::InvalidHealthFactor,
        ),
        agent@ == state.agent_authority@ && health_factor > 0 && old(position).status
            == PositionStatus::Paused ==> r == Err::<(), SolShieldError>(
            SolShieldError::PositionPaused,
        ),
        agent@ == state.agent_authority@ && health_factor > 0 && old(position).status
            == PositionStatus::Closed ==> r == Err::<(), SolShieldError>(
            SolShieldError::PositionClosed,
        ),
        r is Ok ==> *final(position) == health_updated(
            *old(position),
            health_factor,
            total_collateral_usd,
            total_debt_usd,
            now,
        ),
{
    match require_agent(agent, state) {
        Ok(()) => (),
        Err(e) => {
            return Err(e);
        },
    }
    if !(health_factor > 0) {
        return Err(SolShieldError::InvalidHealthFactor);
    }
    if position.status == PositionStatus::Paused {
        return Err(SolShieldError::PositionPaused);
    }
    if position.status == PositionStatus::Closed {
        return Err(SolShieldError::PositionClosed);
    }
    position.health_factor = health_factor;
    position.total_collateral_usd = total_collateral_usd;
    position.total_debt_usd = total_debt_usd;
    position.last_check_ts = now;
    if health_factor < position.critical_threshold {
        position.status = PositionStatus::Critical;
    } else if health_factor < position.warn_threshold {
        position.status = PositionStatus::Warning;
    } else {
        position.status = PositionStatus::Active;
    }
    Ok(())
}

} // verus!
