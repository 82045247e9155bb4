//! Risk-monitoring ledger for leveraged lending positions.
//!
//! The library tracks the collateralization health of registered positions,
//! gates every mutation behind an authorization check, and keeps an
//! append-only ledger of corrective (rebalance) actions. The heart is the
//! position lifecycle state machine: health reports drive a position between
//! `Active`, `Warning` and `Critical`; the owner alone may pause, resume or
//! close it.

use vstd::prelude::*;

pub mod errors;
pub mod guard;
pub mod instructions;
pub mod state;
pub mod store;

verus! {

/// The external lending venue a position lives on.
#[derive(Clone, Copy, PartialEq, Eq, Structural, Debug)]
pub enum DeFiProtocol {
    Kamino,
    MarginFi,
    Solend,
}

/// A corrective action reported into the rebalance ledger.
#[derive(Clone, Copy, PartialEq, Eq, Structural, Debug)]
pub enum RebalanceAction {
    CollateralTopUp,
    DebtRepayment,
    CollateralSwap,
    PositionMigration,
    EmergencyUnwind,
}

/// Parameters handed to protocol initialization.
#[derive(Clone, Copy)]
pub struct ProtocolConfig {
    /// Identity permitted to report health updates and rebalances.
    pub agent_authority: crate::state::Pubkey,
    /// Default health-factor warning cutoff, in basis points.
    pub default_warn_threshold: u64,
    /// Default critical cutoff, in basis points; must stay below the warning cutoff.
    pub default_critical_threshold: u64,
    /// Cap on positions per user; stored, not enforced by any operation here.
    pub max_positions_per_user: u8,
    /// Rebalance fee parameter, in basis points; stored, not applied here.
    pub rebalance_fee_bps: u16,
}

} // verus!
