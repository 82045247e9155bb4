//! The entity store: durable, directly-addressable records, keyed by
//! deterministic keys derived from each record's logical identity.
//!
//! The singleton protocol state, the positions (keyed by owner +
//! obligation) and the rebalance ledger entries (keyed by position +
//! ordinal) live here. Each operation runs the authorization guard, then
//! the lifecycle state machine of [`crate::instructions`], then commits —
//! or rejects with no partial effect.

use vstd::prelude::*;

use crate::errors::SolShieldError;
use crate::instructions::close_position;
use crate::instructions::initialize::{self, initial_state};
use crate::instructions::pause_position;
use crate::instructions::record_rebalance::{self, cooldown_ok, new_record, rebalance_applied};
use crate::instructions::register_position::{self, new_position};
use crate::instructions::resume_position;
use crate::instructions::update_health::{self, health_updated};
use crate::state::{MonitoredPosition, PositionStatus, ProtocolState, Pubkey, RebalanceRecord};
use crate::{DeFiProtocol, ProtocolConfig, RebalanceAction};

verus! {

/// Why the store refused a request: the derived key was already occupied,
/// no record lives under it, or the operation itself rejected the request.
#[derive(Clone, Copy, PartialEq, Eq, Structural, Debug)]
pub enum StoreError {
    AlreadyExists,
    NotFound,
    Rejected(SolShieldError),
}

/// A ledger entry: a rebalance record together with the ordinal it is keyed
/// by — the position's rebalance count at creation time, which makes the
/// key unique and the append order derivable.
#[derive(Clone, Copy, Debug)]
pub struct LedgerEntry {
    pub ordinal: u32,
    pub record: RebalanceRecord,
}

/// Whether a position is stored under the key (`owner`, `obligation`).
pub open spec fn pos_matches(p: MonitoredPosition, owner: Seq<u8>, obligation: Seq<u8>) -> bool {
    p.owner@ == owner && p.obligation_key@ == obligation
}

/// Whether two positions are stored under the same key.
pub open spec fn same_key(p: MonitoredPosition, q: MonitoredPosition) -> bool {
    pos_matches(p, q.owner@, q.obligation_key@)
}

/// Whether a ledger entry is stored under the key (`owner`, `obligation`,
/// `ordinal`).
pub open spec fn entry_matches(e: LedgerEntry, owner: Seq<u8>, obligation: Seq<u8>, ordinal: u32) -> bool {
    e.record.position.owner@ == owner && e.record.position.obligation@ == obligation
        && e.ordinal == ordinal
}

/// The entity store. All three record kinds are owned exclusively by it;
/// every mutation goes through one of the guarded operations.
pub struct EntityStore {
    /// The singleton protocol configuration, present once initialized.
    pub config: Option<ProtocolState>,
    /// The live monitored positions; a closed position is removed.
    pub positions: Vec<MonitoredPosition>,
    /// The append-only rebalance ledger.
    pub records: Vec<LedgerEntry>,
}

impl EntityStore {
    /// Well-formedness, established by [`EntityStore::new`] and preserved by
    /// every operation: records exist only under an initialized protocol;
    /// the counters agree with the stored records; keys are unique; every
    /// position is valid and live.
    pub open spec fn wf(self) -> bool {
        &&& self.config matches Some(c) ==> {
            &&& c.wf()
            &&& c.total_positions == self.positions@.len()
            &&& c.total_rebalances == self.records@.len()
        }
        &&& self.config is None ==> self.positions@.len() == 0 && self.records@.len() == 0
        &&& forall|i: int| 0 <= i < self.positions@.len() ==> (#[trigger] self.positions@[i]).wf()
            && self.positions@[i].status != PositionStatus::Closed
        &&& forall|i: int, j: int|
            0 <= i < self.positions@.len() && 0 <= j < self.positions@.len() && i != j
                ==> !#[trigger] same_key(self.positions@[i], self.positions@[j])
        &&& forall|i: int, j: int|
            0 <= i < self.records@.len() && 0 <= j < self.records@.len() && i != j
                ==> !#[trigger] entry_matches(
                self.records@[i],
                self.records@[j].record.position.owner@,
                self.records@[j].record.position.obligation@,
                self.records@[j].ordinal,
            )
    }

    /// Whether some position is stored under (`owner`, `obligation`).
    pub open spec fn has_position(self, owner: Seq<u8>, obligation: Seq<u8>) -> bool {
        exists|i: int|
            0 <= i < self.positions@.len() && pos_matches(
                #[trigger] self.positions@[i],
                owner,
                obligation,
            )
    }

    /// The index of the position stored under (`owner`, `obligation`);
    /// meaningful only under [`EntityStore::has_position`].
    pub open spec fn position_index(self, owner: Seq<u8>, obligation: Seq<u8>) -> int {
        choose|i: int|
            0 <= i < self.positions@.len() && pos_matches(
                #[trigger] self.positions@[i],
                owner,
                obligation,
            )
    }

    /// The position stored under (`owner`, `obligation`); meaningful only
    /// under [`EntityStore::has_position`].
    pub open spec fn position_at(self, owner: Seq<u8>, obligation: Seq<u8>) -> MonitoredPosition {
        self.positions@[self.position_index(owner, obligation)]
    }

    /// Whether some ledger entry is stored under (`owner`, `obligation`,
    /// `ordinal`).
    pub open spec fn has_record(self, owner: Seq<u8>, obligation: Seq<u8>, ordinal: u32) -> bool {
        exists|i: int|
            0 <= i < self.records@.len() && entry_matches(
                #[trigger] self.records@[i],
                owner,
                obligation,
                ordinal,
            )
    }

    /// The index of the ledger entry stored under (`owner`, `obligation`,
    /// `ordinal`); meaningful only under [`EntityStore::has_record`].
    pub open spec fn record_index(self, owner: Seq<u8>, obligation: Seq<u8>, ordinal: u32) -> int {
        choose|i: int|
            0 <= i < self.records@.len() && entry_matches(
                #[trigger] self.records@[i],
                owner,
                obligation,
                ordinal,
            )
    }

    /// The rebalance record stored under (`owner`, `obligation`, `ordinal`);
    /// meaningful only under [`EntityStore::has_record`].
    pub open spec fn record_at(self, owner: Seq<u8>, obligation: Seq<u8>, ordinal: u32) -> RebalanceRecord {
        self.records@[self.record_index(owner, obligation, ordinal)].record
    }

    /// Counter consistency: in a well-formed, initialized store the global
    /// position counter equals the number of live positions — after N
    /// successful registrations and M successful closures on a fresh store
    /// it reads N − M — and the rebalance counter equals the length of the
    /// ledger.
    pub proof fn lemma_counter_consistency(self)
        requires
            self.wf(),
            self.config is Some,
        ensures
            self.config->Some_0.total_positions == self.positions@.len(),
            self.config->Some_0.total_rebalances == self.records@.len(),
    {
    }

    /// An empty, uninitialized store.
    pub fn new() -> (st: EntityStore)
        ensures
            st.wf(),
            st.config is None,
            st.positions@.len() == 0,
            st.records@.len() == 0,
    {
        EntityStore { config: None, positions: Vec::new(), records: Vec::new() }
    }

    /// Looks a position up by its key.
    fn find_position(&self, owner: &Pubkey, obligation_key: &Pubkey) -> (r: Option<usize>)
        ensures
            r matches Some(i) ==> 0 <= i < self.positions@.len() && pos_matches(
                self.positions@[i as int],
                owner@,
                obligation_key@,
            ),
            r is None ==> !self.has_position(owner@, obligation_key@),
    {
        let n = self.positions.len();
        let mut i: usize = 0;
        while i < n
            invariant
                n == self.positions@.len(),
                0 <= i <= n,
                forall|j: int|
                    0 <= j < i ==> !pos_matches(
                        #[trigger] self.positions@[j],
                        owner@,
                        obligation_key@,
                    ),
            decreases n - i,
        {
            if self.positions[i].owner == *owner && self.positions[i].obligation_key
                == *obligation_key {
                return Some(i);
            }
            i = i + 1;
        }
        None
    }

    /// Looks a ledger entry up by its key.
    fn find_record(&self, owner: &Pubkey, obligation_key: &Pubkey, ordinal: u32) -> (r: Option<
        usize,
    >)
        ensures
            r matches Some(i) ==> 0 <= i < self.records@.len() && entry_matches(
                self.records@[i as int],
                owner@,
                obligation_key@,
                ordinal,
            ),
            r is None ==> !self.has_record(owner@, obligation_key@, ordinal),
    {
        let n = self.records.len();
        let mut i: usize = 0;
        while i < n
            invariant
                n == self.records@.len(),
                0 <= i <= n,
                forall|j: int|
                    0 <= j < i ==> !entry_matches(
                        #[trigger] self.records@[j],
                        owner@,
                        obligation_key@,
                        ordinal,
                    ),
            decreases n - i,
        {
            if self.records[i].ordinal == ordinal && self.records[i].record.position.owner
                == *owner && self.records[i].record.position.obligation == *obligation_key {
                return Some(i);
            }
            i = i + 1;
        }
        None
    }

    /// One-time protocol initialization: creates the singleton configuration
    /// record. Fails with `AlreadyExists` once initialized, and rejects
    /// `warn <= critical` with `InvalidThresholds`; the caller becomes the
    /// authority.
    pub fn initialize(&mut self, authority: Pubkey, config: ProtocolConfig) -> (r: Result<
        (),
        StoreError,
    >)
        requires
            old(self).wf(),
        ensures
            final(self).wf(),
            old(self).config is Some ==> r == Err::<(), StoreError>(StoreError::AlreadyExists)
                && *final(self) == *old(self),
            old(self).config is None ==> {
                &&& r is Ok <==> config.default_warn_threshold > config.default_critical_threshold
                &&& r is Err ==> r == Err::<(), StoreError>(
                    StoreError::Rejected(SolShieldError::InvalidThresholds),
                ) && *final(self) == *old(self)
                &&& r is Ok ==> final(self).config == Some(initial_state(authority, config))
                    && final(self).positions@ == old(self).positions@ && final(self).records@
                    == old(self).records@
            },
    {
        if self.config.is_some() {
            return Err(StoreError::AlreadyExists);
        }
        match initialize::handler(authority, config) {
            Ok(s) => {
                self.config = Some(s);
                Ok(())
            },
            Err(e) => Err(StoreError::Rejected(e)),
        }
    }

    /// Registers a position for monitoring under the key (`owner`,
    /// `obligation_key`): the caller becomes the owner. Fails with
    /// `NotFound` before initialization and `AlreadyExists` when the key is
    /// occupied; rejects `warn <= critical` with `InvalidThresholds`. On
    /// success the new position starts `Active` with health 0 and the global
    /// position counter increments.
    pub fn register_position(
        &mut self,
        owner: Pubkey,
        protocol: DeFiProtocol,
        obligation_key: Pubkey,
        warn_threshold: u64,
        critical_threshold: u64,
        now: i64,
    ) -> (r: Result<(), StoreError>)
        requires
            old(self).wf(),
            now >= 0,
            old(self).positions@.len() < u64::MAX,
        ensures
            final(self).wf(),
            old(self).config is None ==> r == Err::<(), StoreError>(StoreError::NotFound)
                && *final(self) == *old(self),
            old(self).config is Some && old(self).has_position(owner@, obligation_key@) ==> r
                == Err::<(), StoreError>(StoreError::AlreadyExists) && *final(self) == *old(self),
            old(self).config is Some && !old(self).has_position(owner@, obligation_key@) ==> {
                &&& r is Ok <==> warn_threshold > critical_threshold
                &&& r is Err ==> r == Err::<(), StoreError>(
                    StoreError::Rejected(SolShieldError::InvalidThresholds),
                ) && *final(self) == *old(self)
                &&& r is Ok ==> {
                    &&& final(self).positions@ == old(self).positions@.push(
                        new_position(
                            owner,
                            protocol,
                            obligation_key,
                            warn_threshold,
                            critical_threshold,
                            now,
                        ),
                    )
                    &&& final(self).config == Some(ProtocolState {
                        total_positions: (old(self).config->Some_0.total_positions + 1) as u64,
                        ..old(self).config->Some_0
                    })
                    &&& final(self).records@ == old(self).records@
                }
            },
    {
        let mut state = match &self.config {
            Some(c) => *c,
            None => {
                return Err(StoreError::NotFound);
            },
        };
        if self.find_position(&owner, &obligation_key).is_some() {
            return Err(StoreError::AlreadyExists);
        }
        match register_position::handler(
            &mut state,
            owner,
            protocol,
            obligation_key,
            warn_threshold,
            critical_threshold,
            now,
        ) {
            Ok(p) => {
                self.positions.push(p);
                self.config = Some(state);
                Ok(())
            },
            Err(e) => Err(StoreError::Rejected(e)),
        }
    }

    /// Applies an agent-reported health update to the position stored under
    /// (`owner`, `obligation_key`). Fails with `NotFound` when no such
    /// position (or no configuration) exists; otherwise exactly as the
    /// update-health handler decides, with no partial effect on rejection.
    pub fn update_health(
        &mut self,
        agent: &Pubkey,
        owner: &Pubkey,
        obligation_key: &Pubkey,
        health_factor: u64,
        total_collateral_usd: u64,
        total_debt_usd: u64,
        now: i64,
    ) -> (r: Result<(), StoreError>)
        requires
            old(self).wf(),
            now >= 0,
        ensures
            final(self).wf(),
            old(self).config is None || !old(self).has_position(owner@, obligation_key@) ==> r
                == Err::<(), StoreError>(StoreError::NotFound) && *final(self) == *old(self),
            old(self).config is Some && old(self).has_position(owner@, obligation_key@) ==> {
                let c = old(self).config->Some_0;
                let i = old(self).position_index(owner@, obligation_key@);
                let p = old(self).positions@[i];
                &&& r is Ok <==> agent@ == c.agent_authority@ && health_factor > 0 && p.status
                    != PositionStatus::Paused
                &&& agent@ != c.agent_authority@ ==> r == Err::<(), StoreError>(
                    StoreError::Rejected(SolShieldError::UnauthorizedAgent),
                )
                &&& agent@ == c.agent_authority@ && health_factor == 0 ==> r == Err::<
                    (),
                    StoreError,
                >(StoreError::Rejected(SolShieldError::InvalidHealthFactor))
                &&& agent@ == c.agent_authority@ && health_factor > 0 && p.status
                    == PositionStatus::Paused ==> r == Err::<(), StoreError>(
                    StoreError::Rejected(SolShieldError::PositionPaused),
                )
                &&& r is Err ==> *final(self) == *old(self)
                &&& r is Ok ==> {
                    &&& final(self).positions@ == old(self).positions@.update(
                        i,
                        health_updated(
                            p,
                            health_factor,
                            total_collateral_usd,
                            total_debt_usd,
                            now,
                        ),
                    )
                    &&& final(self).config == old(self).config
                    &&& final(self).records@ == old(self).records@
                }
            },
    {
        let state = match &self.config {
            Some(c) => *c,
            None => {
                return Err(StoreError::NotFound);
            },
        };
        let idx = match self.find_position(owner, obligation_key) {
            Some(i) => i,
            None => {
                return Err(StoreError::NotFound);
            },
        };
        proof {
            lemma_unique_index(*self, owner@, obligation_key@, idx as int);
        }
        let mut position = self.positions[idx];
        match update_health::handler(
            &state,
            &mut position,
            agent,
            health_factor,
            total_collateral_usd,
            total_debt_usd,
            now,
        ) {
            Ok(()) => {
                self.positions[idx] = position;
                proof {
                    lemma_update_keeps_position_invariants(
                        old(self).positions@,
                        idx as int,
                        position,
                    );
                }
                Ok(())
            },
            Err(e) => Err(StoreError::Rejected(e)),
        }
    }

    /// Suspends monitoring of the position stored under (`owner`,
    /// `obligation_key`). Fails with `NotFound` when no such position (or no
    /// configuration) exists; otherwise exactly as the pause handler
    /// decides, with no partial effect on rejection.
    pub fn pause_position(&mut self, caller: &Pubkey, owner: &Pubkey, obligation_key: &Pubkey) -> (r:
        Result<(), StoreError>)
        requires
            old(self).wf(),
        ensures
            final(self).wf(),
            old(self).config is None || !old(self).has_position(owner@, obligation_key@) ==> r
                == Err::<(), StoreError>(StoreError::NotFound) && *final(self) == *old(self),
            old(self).config is Some && old(self).has_position(owner@, obligation_key@) ==> {
                let i = old(self).position_index(owner@, obligation_key@);
                let p = old(self).positions@[i];
                &&& r is Ok <==> caller@ == p.owner@ && p.status != PositionStatus::Paused
                &&& caller@ != p.owner@ ==> r == Err::<(), StoreError>(
                    StoreError::Rejected(SolShieldError::UnauthorizedOwner),
                )
                &&& caller@ == p.owner@ && p.status == PositionStatus::Paused ==> r == Err::<
                    (),
                    StoreError,
                >(StoreError::Rejected(SolShieldError::PositionPaused))
                &&& r is Err ==> *final(self) == *old(self)
                &&& r is Ok ==> {
                    &&& final(self).positions@ == old(self).positions@.update(
                        i,
                        MonitoredPosition { status: PositionStatus::Paused, ..p },
                    )
                    &&& final(self).config == old(self).config
                    &&& final(self).records@ == old(self).records@
                }
            },
    {
        if self.config.is_none() {
            return Err(StoreError::NotFound);
        }
        let idx = match self.find_position(owner, obligation_key) {
            Some(i) => i,
            None => {
                return Err(StoreError::NotFound);
            },
        };
        proof {
            lemma_unique_index(*self, owner@, obligation_key@, idx as int);
        }
        let mut position = self.positions[idx];
        match pause_position::handler(&mut position, caller) {
            Ok(()) => {
                self.positions[idx] = position;
                proof {
                    lemma_update_keeps_position_invariants(
                        old(self).positions@,
                        idx as int,
                        position,
                    );
                }
                Ok(())
            },
            Err(e) => Err(StoreError::Rejected(e)),
        }
    }

    /// Resumes monitoring of the position stored under (`owner`,
    /// `obligation_key`). Fails with `NotFound` when no such position (or no
    /// configuration) exists; otherwise exactly as the resume handler
    /// decides, with no partial effect on rejection.
    pub fn resume_position(&mut self, caller: &Pubkey, owner: &Pubkey, obligation_key: &Pubkey) -> (r:
        Result<(), StoreError>)
        requires
            old(self).wf(),
        ensures
            final(self).wf(),
            old(self).config is None || !old(self).has_position(owner@, obligation_key@) ==> r
                == Err::<(), StoreError>(StoreError::NotFound) && *final(self) == *old(self),
            old(self).config is Some && old(self).has_position(owner@, obligation_key@) ==> {
                let i = old(self).position_index(owner@, obligation_key@);
                let p = old(self).positions@[i];
                &&& r is Ok <==> caller@ == p.owner@ && p.status == PositionStatus::Paused
                &&& caller@ != p.owner@ ==> r == Err::<(), StoreError>(
                    StoreError::Rejected(SolShieldError::UnauthorizedOwner),
                )
                &&& caller@ == p.owner@ && p.status != PositionStatus::Paused ==> r == Err::<
                    (),
                    StoreError,
                >(StoreError::Rejected(SolShieldError::PositionNotPaused))
                &&& r is Err ==> *final(self) == *old(self)
                &&& r is Ok ==> {
                    &&& final(self).positions@ == old(self).positions@.update(
                        i,
                        MonitoredPosition { status: PositionStatus::Active, ..p },
                    )
                    &&& final(self).config == old(self).config
                    &&& final(self).records@ == old(self).records@
                }
            },
    {
        if self.config.is_none() {
            return Err(StoreError::NotFound);
        }
        let idx = match self.find_position(owner, obligation_key) {
            Some(i) => i,
            None => {
                return Err(StoreError::NotFound);
            },
        };
        proof {
            lemma_unique_index(*self, owner@, obligation_key@, idx as int);
        }
        let mut position = self.positions[idx];
        match resume_position::handler(&mut position, caller) {
            Ok(()) => {
                self.positions[idx] = position;
                proof {
                    lemma_update_keeps_position_invariants(
                        old(self).positions@,
                        idx as int,
                        position,
                    );
                }
                Ok(())
            },
            Err(e) => Err(StoreError::Rejected(e)),
        }
    }

    /// Closes the position stored under (`owner`, `obligation_key`):
    /// terminal, owner-only, unconditional on status. Fails with `NotFound`
    /// when no such position (or no configuration) exists. On success the
    /// record is removed for good and the global position counter
    /// decrements, saturating at zero.
    pub fn close_position(&mut self, caller: &Pubkey, owner: &Pubkey, obligation_key: &Pubkey) -> (r:
        Result<(), StoreError>)
        requires
            old(self).wf(),
        ensures
            final(self).wf(),
            old(self).config is None || !old(self).has_position(owner@, obligation_key@) ==> r
                == Err::<(), StoreError>(StoreError::NotFound) && *final(self) == *old(self),
            old(self).config is Some && old(self).has_position(owner@, obligation_key@) ==> {
                let c = old(self).config->Some_0;
                let i = old(self).position_index(owner@, obligation_key@);
                let p = old(self).positions@[i];
                &&& r is Ok <==> caller@ == p.owner@
                &&& r is Err ==> r == Err::<(), StoreError>(
                    StoreError::Rejected(SolShieldError::UnauthorizedOwner),
                ) && *final(self) == *old(self)
                &&& r is Ok ==> {
                    &&& final(self).positions@ == old(self).positions@.remove(i)
                    &&& final(self).config == Some(ProtocolState {
                        total_positions: if c.total_positions > 0 {
                            (c.total_positions - 1) as u64
                        } else {
                            0
                        },
                        ..c
                    })
                    &&& final(self).records@ == old(self).records@
                }
            },
    {
        let mut state = match &self.config {
            Some(c) => *c,
            None => {
                return Err(StoreError::NotFound);
            },
        };
        let idx = match self.find_position(owner, obligation_key) {
            Some(i) => i,
            None => {
                return Err(StoreError::NotFound);
            },
        };
        proof {
            lemma_unique_index(*self, owner@, obligation_key@, idx as int);
        }
        let position = self.positions[idx];
        match close_position::handler(&mut state, &position, caller) {
            Ok(()) => {
                self.positions.remove(idx);
                self.config = Some(state);
                Ok(())
            },
            Err(e) => Err(StoreError::Rejected(e)),
        }
    }

    /// Appends a rebalance record for the position stored under (`owner`,
    /// `obligation_key`), keyed by the position's current rebalance count.
    /// Fails with `NotFound` when no such position (or no configuration)
    /// exists, and with `AlreadyExists` when the derived record key is
    /// occupied; otherwise exactly as the record-rebalance handler decides,
    /// with no partial effect on rejection.
    pub fn record_rebalance(
        &mut self,
        agent: &Pubkey,
        owner: &Pubkey,
        obligation_key: &Pubkey,
        action_type: RebalanceAction,
        amount: u64,
        tx_signature: [u8; 64],
        ai_reasoning_hash: [u8; 32],
        now: i64,
    ) -> (r: Result<(), StoreError>)
        requires
            old(self).wf(),
            now >= 0,
            old(self).records@.len() < u64::MAX,
            old(self).has_position(owner@, obligation_key@) ==> old(self).position_at(
                owner@,
                obligation_key@,
            ).rebalance_count < u32::MAX,
        ensures
            final(self).wf(),
            old(self).config is None || !old(self).has_position(owner@, obligation_key@) ==> r
                == Err::<(), StoreError>(StoreError::NotFound) && *final(self) == *old(self),
            old(self).config is Some && old(self).has_position(owner@, obligation_key@) ==> {
                let c = old(self).config->Some_0;
                let i = old(self).position_index(owner@, obligation_key@);
                let p = old(self).positions@[i];
                &&& old(self).has_record(owner@, obligation_key@, p.rebalance_count) ==> r
                    == Err::<(), StoreError>(StoreError::AlreadyExists) && *final(self) == *old(self)
                &&& !old(self).has_record(owner@, obligation_key@, p.rebalance_count) ==> {
                    &&& r is Ok <==> agent@ == c.agent_authority@ && cooldown_ok(
                        p.last_rebalance_ts,
                        now,
                    )
                    &&& agent@ != c.agent_authority@ ==> r == Err::<(), StoreError>(
                        StoreError::Rejected(SolShieldError::UnauthorizedAgent),
                    )
                    &&& agent@ == c.agent_authority@ && !cooldown_ok(p.last_rebalance_ts, now)
                        ==> r == Err::<(), StoreError>(
                        StoreError::Rejected(SolShieldError::RebalanceCooldown),
                    )
                    &&& r is Err ==> *final(self) == *old(self)
                    &&& r is Ok ==> {
                        &&& final(self).records@ == old(self).records@.push(
                            LedgerEntry {
                                ordinal: p.rebalance_count,
                                record: new_record(
                                    p,
                                    action_type,
                                    amount,
                                    tx_signature,
                                    ai_reasoning_hash,
                                    now,
                                ),
                            },
                        )
                        &&& final(self).positions@ == old(self).positions@.update(
                            i,
                            rebalance_applied(p, now),
                        )
                        &&& final(self).config == Some(ProtocolState {
                            total_rebalances: (c.total_rebalances + 1) as u64,
                            ..c
                        })
                    }
                }
            },
    {
        let mut state = match &self.config {
            Some(c) => *c,
            None => {
                return Err(StoreError::NotFound);
            },
        };
        let idx = match self.find_position(owner, obligation_key) {
            Some(i) => i,
            None => {
                return Err(StoreError::NotFound);
            },
        };
        proof {
            lemma_unique_index(*self, owner@, obligation_key@, idx as int);
        }
        let ordinal = self.positions[idx].rebalance_count;
        if self.find_record(owner, obligation_key, ordinal).is_some() {
            return Err(StoreError::AlreadyExists);
        }
        let mut position = self.positions[idx];
        match record_rebalance::handler(
            &mut state,
            &mut position,
            agent,
            action_type,
            amount,
            tx_signature,
            ai_reasoning_hash,
            now,
        ) {
            Ok(rec) => {
                self.positions[idx] = position;
                self.records.push(LedgerEntry { ordinal, record: rec });
                self.config = Some(state);
                proof {
                    lemma_update_keeps_position_invariants(
                        old(self).positions@,
                        idx as int,
                        position,
                    );
                    let r_old = old(self).records@;
                    let r_new = self.records@;
                    assert forall|a: int, b: int|
                        0 <= a < r_new.len() && 0 <= b < r_new.len() && a != b implies
                        !#[trigger] entry_matches(
                            r_new[a],
                            r_new[b].record.position.owner@,
                            r_new[b].record.position.obligation@,
                            r_new[b].ordinal,
                        ) by {
                        if a < r_old.len() && b < r_old.len() {
                            assert(r_new[a] == r_old[a] && r_new[b] == r_old[b]);
                        } else if b < r_old.len() {
                            // the fresh entry against a stored one: a match would mean the
                            // stored entry already occupies the freshly derived key
                            assert(r_new[a].record.position.owner@ == owner@);
                            assert(r_new[a].record.position.obligation@ == obligation_key@);
                            if entry_matches(
                                r_new[a],
                                r_new[b].record.position.owner@,
                                r_new[b].record.position.obligation@,
                                r_new[b].ordinal,
                            ) {
                                assert(entry_matches(r_old[b], owner@, obligation_key@, ordinal));
                                assert(old(self).has_record(owner@, obligation_key@, ordinal));
                            }
                        } else {
                            assert(r_new[b].record.position.owner@ == owner@);
                            assert(r_new[b].record.position.obligation@ == obligation_key@);
                            if entry_matches(
                                r_new[a],
                                r_new[b].record.position.owner@,
                                r_new[b].record.position.obligation@,
                                r_new[b].ordinal,
                            ) {
                                assert(entry_matches(r_old[a], owner@, obligation_key@, ordinal));
                                assert(old(self).has_record(owner@, obligation_key@, ordinal));
                            }
                        }
                    }
                }
                Ok(())
            },
            Err(e) => Err(StoreError::Rejected(e)),
        }
    }

    /// Reads the protocol configuration, when initialized.
    pub fn get_config(&self) -> (r: Option<ProtocolState>)
        ensures
            r == self.config,
    {
        match &self.config {
            Some(c) => Some(*c),
            None => None,
        }
    }

    /// Reads the position stored under (`owner`, `obligation_key`), if any.
    pub fn get_position(&self, owner: &Pubkey, obligation_key: &Pubkey) -> (r: Option<
        MonitoredPosition,
    >)
        requires
            self.wf(),
        ensures
            r is Some <==> self.has_position(owner@, obligation_key@),
            r matches Some(p) ==> p == self.position_at(owner@, obligation_key@)
                && pos_matches(p, owner@, obligation_key@),
    {
        match self.find_position(owner, obligation_key) {
            Some(i) => {
                proof {
                    lemma_unique_index(*self, owner@, obligation_key@, i as int);
                }
                Some(self.positions[i])
            },
            None => None,
        }
    }

    /// Reads the rebalance record stored under (`owner`, `obligation_key`,
    /// `ordinal`), if any.
    pub fn get_record(&self, owner: &Pubkey, obligation_key: &Pubkey, ordinal: u32) -> (r: Option<
        RebalanceRecord,
    >)
        requires
            self.wf(),
        ensures
            r is Some <==> self.has_record(owner@, obligation_key@, ordinal),
            r matches Some(rec) ==> rec == self.record_at(owner@, obligation_key@, ordinal),
    {
        match self.find_record(owner, obligation_key, ordinal) {
            Some(i) => {
                proof {
                    lemma_unique_record_index(*self, owner@, obligation_key@, ordinal, i as int);
                }
                Some(self.records[i].record)
            },
            None => None,
        }
    }
}

/// A point update that keeps a position's key, validity and liveness keeps
/// the store's position invariants.
proof fn lemma_update_keeps_position_invariants(s: Seq<MonitoredPosition>, i: int, p: MonitoredPosition)
    requires
        0 <= i < s.len(),
        forall|j: int| 0 <= j < s.len() ==> (#[trigger] s[j]).wf() && s[j].status
            != PositionStatus::Closed,
        forall|a: int, b: int| 0 <= a < s.len() && 0 <= b < s.len() && a != b
            ==> !#[trigger] same_key(s[a], s[b]),
        p.wf(),
        p.status != PositionStatus::Closed,
        p.owner@ == s[i].owner@,
        p.obligation_key@ == s[i].obligation_key@,
    ensures
        forall|j: int| 0 <= j < s.update(i, p).len() ==> (#[trigger] s.update(i, p)[j]).wf()
            && s.update(i, p)[j].status != PositionStatus::Closed,
        forall|a: int, b: int|
            0 <= a < s.update(i, p).len() && 0 <= b < s.update(i, p).len() && a != b
                ==> !#[trigger] same_key(s.update(i, p)[a], s.update(i, p)[b]),
{
    let t = s.update(i, p);
    assert forall|j: int| 0 <= j < t.len() implies (#[trigger] t[j]).wf() && t[j].status
        != PositionStatus::Closed by {
        if j != i {
            assert(t[j] == s[j]);
        }
    }
    assert forall|a: int, b: int| 0 <= a < t.len() && 0 <= b < t.len() && a != b implies
        !#[trigger] same_key(t[a], t[b]) by {
        assert(t[a].owner@ == s[a].owner@ && t[a].obligation_key@ == s[a].obligation_key@);
        assert(t[b].owner@ == s[b].owner@ && t[b].obligation_key@ == s[b].obligation_key@);
        assert(!same_key(s[a], s[b]));
    }
}

/// In a well-formed store the index found for a key is the one
/// `position_index` denotes.
proof fn lemma_unique_index(st: EntityStore, owner: Seq<u8>, obligation: Seq<u8>, i: int)
    requires
        st.wf(),
        0 <= i < st.positions@.len(),
        pos_matches(st.positions@[i], owner, obligation),
    ensures
        st.has_position(owner, obligation),
        st.position_index(owner, obligation) == i,
{
    let j = st.position_index(owner, obligation);
    if j != i {
        assert(same_key(st.positions@[i], st.positions@[j]));
    }
}

/// In a well-formed store the index found for a record key is the one
/// `record_index` denotes.
proof fn lemma_unique_record_index(
    st: EntityStore,
    owner: Seq<u8>,
    obligation: Seq<u8>,
    ordinal: u32,
    i: int,
)
    requires
        st.wf(),
        0 <= i < st.records@.len(),
        entry_matches(st.records@[i], owner, obligation, ordinal),
    ensures
        st.has_record(owner, obligation, ordinal),
        st.record_index(owner, obligation, ordinal) == i,
{
    let j = st.record_index(owner, obligation, ordinal);
    if j != i {
        assert(entry_matches(
            st.records@[i],
            st.records@[j].record.position.owner@,
            st.records@[j].record.position.obligation@,
            st.records@[j].ordinal,
        ));
    }
}

} // verus!
