//! The three record kinds of the entity store, and the identities that key them.

use vstd::prelude::*;

use crate::{DeFiProtocol, RebalanceAction};

verus! {

/// A 32-byte account identity: the plain-value form of an address on the
/// hosting chain. Only ever compared for equality.
#[derive(Clone, Copy, Debug)]
pub struct Pubkey {
    pub bytes: [u8; 32],
}

impl View for Pubkey {
    type V = Seq<u8>;

    open spec fn view(&self) -> Seq<u8> {
        self.bytes@
    }
}

impl PartialEq for Pubkey {
    fn eq(&self, other: &Pubkey) -> (r: bool) {
        let mut i: usize = 0;
        while i < 32
            invariant
                0 <= i <= 32,
                forall|j: int| 0 <= j < i ==> self.bytes@[j] == other.bytes@[j],
            decreases 32 - i,
        {
            if self.bytes[i] != other.bytes[i] {
                return false;
            }
            i = i + 1;
        }
        proof {
            assert(self.bytes@ =~= other.bytes@);
        }
        true
    }
}

impl vstd::std_specs::cmp::PartialEqSpecImpl for Pubkey {
    open spec fn obeys_eq_spec() -> bool {
        true
    }

    open spec fn eq_spec(&self, other: &Pubkey) -> bool {
        self.bytes@ == other.bytes@
    }
}

/// The deterministic key of a position: its owner together with the external
/// obligation it tracks. Any party who knows the pair can re-derive the key.
#[derive(Clone, Copy, Debug)]
pub struct PositionKey {
    pub owner: Pubkey,
    pub obligation: Pubkey,
}

/// Lifecycle status of a monitored position.
#[derive(Clone, Copy, PartialEq, Eq, Structural, Debug)]
pub enum PositionStatus {
    Active,
    Warning,
    Critical,
    Paused,
    Closed,
}

impl Default for PositionStatus {
    /// A freshly registered position starts out `Active`.
    fn default() -> (r: Self)
        ensures
            r == PositionStatus::Active,
    {
        PositionStatus::Active
    }
}

/// Global protocol state: the singleton configuration record.
#[derive(Clone, Copy, Debug)]
pub struct ProtocolState {
    /// Protocol admin, fixed at initialization.
    pub authority: Pubkey,
    /// Agent authorized to report health and rebalances.
    pub agent_authority: Pubkey,
    /// Default health-factor warning threshold (basis points).
    pub default_warn_threshold: u64,
    /// Default critical threshold (basis points).
    pub default_critical_threshold: u64,
    /// Max positions per user (stored, not enforced by any operation here).
    pub max_positions_per_user: u8,
    /// Fee for rebalancing (basis points; stored, not applied here).
    pub rebalance_fee_bps: u16,
    /// Number of live registered positions.
    pub total_positions: u64,
    /// Number of rebalances recorded.
    pub total_rebalances: u64,
    /// Total value protected (USD, 6 decimals).
    pub total_value_protected: u64,
}

impl ProtocolState {
    /// Fixed maximum serialized size, with padding reserved for later fields.
    pub const SIZE: usize = 32 + 32 + 8 + 8 + 1 + 2 + 8 + 8 + 8 + 64;

    /// The configuration invariant established at initialization.
    pub open spec fn wf(self) -> bool {
        self.default_warn_threshold > self.default_critical_threshold
    }
}

/// A monitored lending position.
#[derive(Clone, Copy, Debug)]
pub struct MonitoredPosition {
    /// Identity that registered the position; the only one allowed to
    /// pause, resume or close it.
    pub owner: Pubkey,
    /// Which lending venue the position lives on.
    pub protocol: DeFiProtocol,
    /// The obligation/margin account tracked on that venue.
    pub obligation_key: Pubkey,
    /// Most recently reported health factor (basis points); 0 means never reported.
    pub health_factor: u64,
    /// Most recently reported collateral value (USD, 6 decimals).
    pub total_collateral_usd: u64,
    /// Most recently reported debt value (USD, 6 decimals).
    pub total_debt_usd: u64,
    /// Per-position warning threshold (basis points).
    pub warn_threshold: u64,
    /// Per-position critical threshold (basis points); below the warning one.
    pub critical_threshold: u64,
    /// Lifecycle status.
    pub status: PositionStatus,
    /// Number of rebalance records appended for this position; also the
    /// ordinal of the next record.
    pub rebalance_count: u32,
    /// Timestamp of the last health report (seconds since epoch).
    pub last_check_ts: i64,
    /// Timestamp of the last recorded rebalance; 0 means none yet.
    pub last_rebalance_ts: i64,
    /// Registration timestamp.
    pub created_at: i64,
}

impl MonitoredPosition {
    /// Fixed maximum serialized size, with padding reserved for later fields.
    pub const SIZE: usize = 32 + 1 + 32 + 8 + 8 + 8 + 8 + 8 + 1 + 4 + 8 + 8 + 8 + 64;

    /// Validity of a stored position: threshold ordering, checked once at
    /// registration, and non-negative timestamps.
    pub open spec fn wf(self) -> bool {
        &&& self.warn_threshold > self.critical_threshold
        &&& self.last_check_ts >= 0
        &&& self.last_rebalance_ts >= 0
        &&& self.created_at >= 0
    }

    /// The deterministic key this position is stored under.
    pub open spec fn key(self) -> PositionKey {
        PositionKey { owner: self.owner, obligation: self.obligation_key }
    }
}

/// An immutable record of one corrective action, appended to the ledger.
#[derive(Clone, Copy, Debug)]
pub struct RebalanceRecord {
    /// Key of the position this rebalance was for.
    pub position: PositionKey,
    /// Owner of the position at recording time (denormalized for audit).
    pub owner: Pubkey,
    /// Kind of corrective action taken.
    pub action_type: RebalanceAction,
    /// Magnitude of the action, in the smallest unit of the relevant asset.
    pub amount: u64,
    /// Health factor immediately before the action (basis points).
    pub health_before: u64,
    /// Reserved for a later health update; always 0 at creation.
    pub health_after: u64,
    /// 64-byte proof binding the record to an externally executed transaction.
    pub tx_signature: [u8; 64],
    /// 32-byte digest binding the record to an off-system reasoning trail.
    pub ai_reasoning_hash: [u8; 32],
    /// Recording timestamp (seconds since epoch).
    pub timestamp: i64,
}

impl RebalanceRecord {
    /// Fixed maximum serialized size, with padding reserved for later fields.
    pub const SIZE: usize = 32 + 32 + 1 + 8 + 8 + 8 + 64 + 32 + 8 + 64;
}

} // verus!
