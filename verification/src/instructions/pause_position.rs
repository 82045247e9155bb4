//! Owner-initiated pause of monitoring.

use vstd::prelude::*;

use crate::errors::SolShieldError;
use crate::guard::require_owner;
use crate::state::{MonitoredPosition, PositionStatus, Pubkey};

verus! {

/// Suspends agent-driven status evaluation. The guard runs first: only the
/// owner is admitted. Pausing an already-paused position is rejected with
/// `PositionPaused` (idempotency is explicitly rejected, not silently
/// accepted), and a closed one with `PositionClosed`. Rejections leave the
/// position untouched.
pub fn handler(position: &mut MonitoredPosition, caller: &Pubkey) -> (r: Result<
    (),
    SolShieldError,
>)
    ensures
        r is Ok <==> {
            &&& caller@ == old(position).owner@
            &&& old(position).status != PositionStatus::Closed
            &&& old(position).status != PositionStatus::Paused
        },
        r is Err ==> *final(position) == *old(position),
        caller@ != old(position).owner@ ==> r == Err::<(), SolShieldError>(
            SolShieldError::UnauthorizedOwner,
        ),
        caller@ == old(position).owner@ && old(position).status == PositionStatus::Closed ==> r
            == Err::<(), SolShieldError>(SolShieldError::PositionClosed),
        caller@ == old(position).owner@ && old(position).status == PositionStatus::Paused ==> r
            == Err::<(), SolShieldError>(SolShieldError::PositionPaused),
        r is Ok ==> *final(position) == (MonitoredPosition {
            status: PositionStatus::Paused,
            ..*old(position)
        }),
{
    match require_owner(caller, position) {
        Ok(()) => (),
        Err(e) => {
            return Err(e);
        },
    }
    if position.status == PositionStatus::Closed {
        return Err(SolShieldError::PositionClosed);
    }
    if position.status == PositionStatus::Paused {
        return Err(SolShieldError::PositionPaused);
    }
    position.status = PositionStatus::Paused;
    Ok(())
}

} // verus!
