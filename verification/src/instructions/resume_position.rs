//! Owner-initiated resumption of monitoring.

use vstd::prelude::*;

use crate::errors::SolShieldError;
use crate::guard::require_owner;
use crate::state::{MonitoredPosition, PositionStatus, Pubkey};

verus! {

/// Reverses a pause. The guard runs first: only the owner is admitted. The
/// position must be exactly `Paused` (`PositionNotPaused` otherwise); on
/// success it returns to `Active`. Rejections leave the position untouched.
pub fn handler(position: &mut MonitoredPosition, caller: &Pubkey) -> (r: Result<
    (),
    SolShieldError,
>)
    ensures
        r is Ok <==> caller@ == old(position).owner@ && old(position).status
            == PositionStatus::Paused,
        r is Err ==> *final(position) == *old(position),
        caller@ != old(position).owner@ ==> r == Err::<(), SolShieldError>(
            SolShieldError::UnauthorizedOwner,
        ),
        caller@ == old(position).owner@ && old(position).status != PositionStatus::Paused ==> r
            == Err::<(), SolShieldError>(SolShieldError::PositionNotPaused),
        r is Ok ==> *final(position) == (MonitoredPosition {
            status: PositionStatus::Active,
            ..*old(position)
        }),
{
    match require_owner(caller, position) {
        Ok(()) => (),
        Err(e) => {
            return Err(e);
        },
    }
    if !(position.status == PositionStatus::Paused) {
        return Err(SolShieldError::PositionNotPaused);
    }
    position.status = PositionStatus::Active;
    Ok(())
}

} // verus!
