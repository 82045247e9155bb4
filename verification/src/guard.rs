//! The authorization guard: pure predicates evaluated before any mutation.
//!
//! Roles are strictly separated. The protocol authority cannot act as agent
//! or owner, and the agent cannot act as owner: pause, resume and close stay
//! exclusively owner-controlled escape hatches.

use vstd::prelude::*;

use crate::errors::SolShieldError;
use crate::state::{MonitoredPosition, ProtocolState, Pubkey};

verus! {

/// Admits exactly the configured agent authority.
pub fn require_agent(caller: &Pubkey, config: &ProtocolState) -> (r: Result<(), SolShieldError>)
    ensures
        r is Ok <==> caller@ == config.agent_authority@,
        r is Err ==> r == Err::<(), SolShieldError>(SolShieldError::UnauthorizedAgent),
{
    if *caller == config.agent_authority {
        Ok(())
    } else {
        Err(SolShieldError::UnauthorizedAgent)
    }
}

/// Admits exactly the position's owner.
pub fn require_owner(caller: &Pubkey, position: &MonitoredPosition) -> (r: Result<(), SolShieldError>)
    ensures
        r is Ok <==> caller@ == position.owner@,
        r is Err ==> r == Err::<(), SolShieldError>(SolShieldError::UnauthorizedOwner),
{
    if *caller == position.owner {
        Ok(())
    } else {
        Err(SolShieldError::UnauthorizedOwner)
    }
}

} // verus!
