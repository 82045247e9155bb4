//! Appending rebalance records to the ledger.

use vstd::prelude::*;

use crate::errors::SolShieldError;
use crate::guard::require_agent;
use crate::state::{MonitoredPosition, PositionKey, PositionStatus, ProtocolState, Pubkey, RebalanceRecord};
use crate::RebalanceAction;

verus! {

/// Minimum delay, in seconds, between two rebalances of one position.
pub const REBALANCE_COOLDOWN_SECS: i64 = 60;

/// Whether a rebalance at time `now` respects the cooldown. The check is
/// skipped while `last_rebalance_ts` is still 0, i.e. before the first-ever
/// rebalance of the position.
pub open spec fn cooldown_ok(last_rebalance_ts: i64, now: i64) -> bool {
    last_rebalance_ts <= 0 || now - last_rebalance_ts >= REBALANCE_COOLDOWN_SECS
}

/// The record a successful call appends: a snapshot of the position's current
/// health, bound to the transaction proof and the reasoning digest.
/// `health_after` stays 0 by design, to be reconciled by a later health
/// update.
pub open spec fn new_record(
    p: MonitoredPosition,
    action_type: RebalanceAction,
    amount: u64,
    tx_signature: [u8; 64],
    ai_reasoning_hash: [u8; 32],
    now: i64,
) -> RebalanceRecord {
    RebalanceRecord {
        position: p.key(),
        owner: p.owner,
        action_type,
        amount,
        health_before: p.health_factor,
        health_after: 0,
        tx_signature,
        ai_reasoning_hash,
        timestamp: now,
    }
}

/// The position as a successful call leaves it: one more rebalance counted,
/// and the cooldown re-armed at `now`.
pub open spec fn rebalance_applied(p: MonitoredPosition, now: i64) -> MonitoredPosition {
    MonitoredPosition {
        rebalance_count: (p.rebalance_count + 1) as u32,
        last_rebalance_ts: now,
        ..p
    }
}

/// The cooldown law: a successful rebalance at time `t1 > 0` re-arms the
/// cooldown, so a second attempt at time `t2` is admitted exactly when at
/// least [`REBALANCE_COOLDOWN_SECS`] seconds have passed.
pub proof fn lemma_rebalance_cooldown(p: MonitoredPosition, t1: i64, t2: i64)
    requires
        0 < t1 <= t2,
    ensures
        t2 - t1 < REBALANCE_COOLDOWN_SECS ==> !cooldown_ok(
            rebalance_applied(p, t1).last_rebalance_ts,
            t2,
        ),
        t2 - t1 >= REBALANCE_COOLDOWN_SECS ==> cooldown_ok(
            rebalance_applied(p, t1).last_rebalance_ts,
            t2,
        ),
{
}

/// Attests that an off-system corrective action was executed. The guard runs
/// first: only the agent authority is admitted. The position must not be
/// closed, and the cooldown since its last rebalance must have elapsed
/// (`RebalanceCooldown` otherwise). On success the record is returned for the
/// ledger, the position's rebalance count and timestamp advance, and the
/// protocol-wide rebalance counter increments. Rejections change nothing.
pub fn handler(
    state: &mut ProtocolState,
    position: &mut MonitoredPosition,
    agent: &Pubkey,
    action_type: RebalanceAction,
    amount: u64,
    tx_signature: [u8; 64],
    ai_reasoning_hash: [u8; 32],
    now: i64,
) -> (r: Result<RebalanceRecord, SolShieldError>)
    requires
        now >= 0,
        old(position).rebalance_count < u32::MAX,
        old(state).total_rebalances < u64::MAX,
    ensures
        r is Ok <==> {
            &&& agent@ == old(state).agent_authority@
            &&& old(position).status != PositionStatus::Closed
            &&& cooldown_ok(old(position).last_rebalance_ts, now)
        },
        r is Err ==> *final(state) == *old(state) && *final(position) == *old(position),
        agent@ != old(state).agent_authority@ ==> r == Err::<RebalanceRecord, SolShieldError>(
            SolShieldError::UnauthorizedAgent,
        ),
        agent@ == old(state).agent_authority@ && old(position).status == PositionStatus::Closed
            ==> r == Err::<RebalanceRecord, SolShieldError>(SolShieldError::PositionClosed),
        agent@ == old(state).agent_authority@ && old(position).status != PositionStatus::Closed
            && !cooldown_ok(old(position).last_rebalance_ts, now) ==> r == Err::<
            RebalanceRecord,
            SolShieldError,
        >(SolShieldError::RebalanceCooldown),
        r matches Ok(rec) ==> {
            &&& rec == new_record(
                *old(position),
                action_type,
                amount,
                tx_signature,
                ai_reasoning_hash,
                now,
            )
            &&& *final(position) == rebalance_applied(*old(position), now)
            &&& *final(state) == (ProtocolState {
                total_rebalances: (old(state).total_rebalances + 1) as u64,
                ..*old(state)
            })
        },
{
    match require_agent(agent, state) {
        Ok(()) => (),
        Err(e) => {
            return Err(e);
        },
    }
    if position.status == PositionStatus::Closed {
        return Err(SolShieldError::PositionClosed);
    }
    if position.last_rebalance_ts > 0 {
        if now - position.last_rebalance_ts < REBALANCE_COOLDOWN_SECS {
            return Err(SolShieldError::RebalanceCooldown);
        }
    }
    let record = RebalanceRecord {
        position: PositionKey {
            owner: position.owner,
            obligation: position.obligation_key,
        },
        owner: position.owner,
        action_type,
        amount,
        health_before: position.health_factor,
        health_after: 0,
        tx_signature,
        ai_reasoning_hash,
        timestamp: now,
    };
    position.rebalance_count = position.rebalance_count + 1;
    position.last_rebalance_ts = now;
    state.total_rebalances = state.total_rebalances + 1;
    Ok(record)
}

} // verus!
