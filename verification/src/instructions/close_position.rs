//! Owner-initiated closure of a position.

use vstd::prelude::*;

use crate::errors::SolShieldError;
use crate::guard::require_owner;
use crate::state::{MonitoredPosition, ProtocolState, Pubkey};

verus! {

/// Settles the accounting for a closure. The guard runs first: only the
/// owner is admitted; closure itself is unconditional on status. The global
/// position counter decrements, saturating at zero — never underflowing —
/// since underflow is expected under legitimate concurrent closures. The
/// caller removes the position record itself; closure is terminal.
pub fn handler(state: &mut ProtocolState, position: &MonitoredPosition, caller: &Pubkey) -> (r:
    Result<(), SolShieldError>)
    ensures
        r is Ok <==> caller@ == position.owner@,
        r is Err ==> r == Err::<(), SolShieldError>(SolShieldError::UnauthorizedOwner)
            && *final(state) == *old(state),
        r is Ok ==> *final(state) == (ProtocolState {
            total_positions: if old(state).total_positions > 0 {
                (old(state).total_positions - 1) as u64
            } else {
                0
            },
            ..*old(state)
        }),
{
    match require_owner(caller, position) {
        Ok(()) => (),
        Err(e) => {
            return Err(e);
        },
    }
    if state.total_positions > 0 {
        state.total_positions = state.total_positions - 1;
    } else {
        state.total_positions = 0;
    }
    Ok(())
}

} // verus!
