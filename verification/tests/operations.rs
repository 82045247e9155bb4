//! Per-operation behavior: validation, authorization, lifecycle checks.

use solshield::errors::SolShieldError;
use solshield::instructions::{initialize, pause_position, record_rebalance, update_health};
use solshield::state::{MonitoredPosition, PositionStatus, ProtocolState, Pubkey};
use solshield::store::{EntityStore, StoreError};
use solshield::{DeFiProtocol, ProtocolConfig, RebalanceAction};

fn pk(b: u8) -> Pubkey {
    Pubkey { bytes: [b; 32] }
}

fn cfg(agent: Pubkey, warn: u64, critical: u64) -> ProtocolConfig {
    ProtocolConfig {
        agent_authority: agent,
        default_warn_threshold: warn,
        default_critical_threshold: critical,
        max_positions_per_user: 5,
        rebalance_fee_bps: 10,
    }
}

/// A store with one initialized protocol (agent = pk(1), authority = pk(2))
/// and one position owned by pk(3) on obligation pk(4).
fn store_with_position() -> EntityStore {
    let mut st = EntityStore::new();
    assert!(st.initialize(pk(2), cfg(pk(1), 15000, 12000)).is_ok());
    assert!(st
        .register_position(pk(3), DeFiProtocol::Kamino, pk(4), 15000, 12000, 50)
        .is_ok());
    st
}

#[test]
fn pubkey_equality_is_by_bytes() {
    assert!(pk(9) == pk(9));
    assert!(pk(9) != pk(8));
    let mut a = pk(9);
    a.bytes[31] = 8;
    assert!(a != pk(9));
}

#[test]
fn initialize_accepts_valid_thresholds() {
    let mut st = EntityStore::new();
    assert_eq!(st.initialize(pk(2), cfg(pk(1), 15000, 12000)), Ok(()));
    let state = st.get_config().unwrap();
    assert!(state.authority == pk(2));
    assert!(state.agent_authority == pk(1));
    assert_eq!(state.default_warn_threshold, 15000);
    assert_eq!(state.default_critical_threshold, 12000);
    assert_eq!(state.max_positions_per_user, 5);
    assert_eq!(state.rebalance_fee_bps, 10);
    assert_eq!(state.total_positions, 0);
    assert_eq!(state.total_rebalances, 0);
    assert_eq!(state.total_value_protected, 0);
}

#[test]
fn initialize_rejects_warn_not_above_critical() {
    let mut st = EntityStore::new();
    assert_eq!(
        st.initialize(pk(2), cfg(pk(1), 12000, 12000)),
        Err(StoreError::Rejected(SolShieldError::InvalidThresholds))
    );
    assert_eq!(
        st.initialize(pk(2), cfg(pk(1), 11000, 12000)),
        Err(StoreError::Rejected(SolShieldError::InvalidThresholds))
    );
    assert!(st.get_config().is_none());
}

#[test]
fn initialize_is_one_time() {
    let mut st = EntityStore::new();
    assert_eq!(st.initialize(pk(2), cfg(pk(1), 15000, 12000)), Ok(()));
    assert_eq!(
        st.initialize(pk(2), cfg(pk(1), 15000, 12000)),
        Err(StoreError::AlreadyExists)
    );
}

#[test]
fn register_rejects_warn_not_above_critical() {
    let mut st = EntityStore::new();
    assert_eq!(st.initialize(pk(2), cfg(pk(1), 15000, 12000)), Ok(()));
    assert_eq!(
        st.register_position(pk(3), DeFiProtocol::Solend, pk(4), 12000, 12000, 50),
        Err(StoreError::Rejected(SolShieldError::InvalidThresholds))
    );
    assert_eq!(
        st.register_position(pk(3), DeFiProtocol::Solend, pk(4), 9000, 12000, 50),
        Err(StoreError::Rejected(SolShieldError::InvalidThresholds))
    );
    assert_eq!(st.get_config().unwrap().total_positions, 0);
}

#[test]
fn register_requires_initialized_protocol() {
    let mut st = EntityStore::new();
    assert_eq!(
        st.register_position(pk(3), DeFiProtocol::Kamino, pk(4), 15000, 12000, 50),
        Err(StoreError::NotFound)
    );
}

#[test]
fn register_creates_active_position_with_zero_health() {
    let st = store_with_position();
    let p = st.get_position(&pk(3), &pk(4)).unwrap();
    assert!(p.owner == pk(3));
    assert_eq!(p.protocol, DeFiProtocol::Kamino);
    assert!(p.obligation_key == pk(4));
    assert_eq!(p.health_factor, 0);
    assert_eq!(p.total_collateral_usd, 0);
    assert_eq!(p.total_debt_usd, 0);
    assert_eq!(p.warn_threshold, 15000);
    assert_eq!(p.critical_threshold, 12000);
    assert_eq!(p.status, PositionStatus::Active);
    assert_eq!(p.rebalance_count, 0);
    assert_eq!(p.last_check_ts, 0);
    assert_eq!(p.last_rebalance_ts, 0);
    assert_eq!(p.created_at, 50);
    assert_eq!(st.get_config().unwrap().total_positions, 1);
}

#[test]
fn register_rejects_occupied_key() {
    let mut st = store_with_position();
    assert_eq!(
        st.register_position(pk(3), DeFiProtocol::MarginFi, pk(4), 14000, 11000, 60),
        Err(StoreError::AlreadyExists)
    );
    assert_eq!(st.get_config().unwrap().total_positions, 1);
}

#[test]
fn update_health_rejects_zero_and_changes_nothing() {
    let mut st = store_with_position();
    let before = st.get_position(&pk(3), &pk(4)).unwrap();
    assert_eq!(
        st.update_health(&pk(1), &pk(3), &pk(4), 0, 777, 888, 99),
        Err(StoreError::Rejected(SolShieldError::InvalidHealthFactor))
    );
    let after = st.get_position(&pk(3), &pk(4)).unwrap();
    assert!(after.owner == before.owner);
    assert_eq!(after.protocol, before.protocol);
    assert!(after.obligation_key == before.obligation_key);
    assert_eq!(after.health_factor, before.health_factor);
    assert_eq!(after.total_collateral_usd, before.total_collateral_usd);
    assert_eq!(after.total_debt_usd, before.total_debt_usd);
    assert_eq!(after.warn_threshold, before.warn_threshold);
    assert_eq!(after.critical_threshold, before.critical_threshold);
    assert_eq!(after.status, before.status);
    assert_eq!(after.rebalance_count, before.rebalance_count);
    assert_eq!(after.last_check_ts, before.last_check_ts);
    assert_eq!(after.last_rebalance_ts, before.last_rebalance_ts);
    assert_eq!(after.created_at, before.created_at);
}

#[test]
fn update_health_requires_agent_authority() {
    let mut st = store_with_position();
    assert_eq!(
        st.update_health(&pk(2), &pk(3), &pk(4), 14000, 1, 1, 99),
        Err(StoreError::Rejected(SolShieldError::UnauthorizedAgent))
    );
    assert_eq!(
        st.update_health(&pk(3), &pk(3), &pk(4), 14000, 1, 1, 99),
        Err(StoreError::Rejected(SolShieldError::UnauthorizedAgent))
    );
    assert_eq!(st.get_position(&pk(3), &pk(4)).unwrap().health_factor, 0);
}

#[test]
fn update_health_follows_threshold_table() {
    let mut st = store_with_position();
    // below critical: Critical
    assert_eq!(st.update_health(&pk(1), &pk(3), &pk(4), 11999, 1, 1, 60), Ok(()));
    assert_eq!(st.get_position(&pk(3), &pk(4)).unwrap().status, PositionStatus::Critical);
    // exactly critical: Warning
    assert_eq!(st.update_health(&pk(1), &pk(3), &pk(4), 12000, 1, 1, 61), Ok(()));
    assert_eq!(st.get_position(&pk(3), &pk(4)).unwrap().status, PositionStatus::Warning);
    // just below warn: Warning
    assert_eq!(st.update_health(&pk(1), &pk(3), &pk(4), 14999, 1, 1, 62), Ok(()));
    assert_eq!(st.get_position(&pk(3), &pk(4)).unwrap().status, PositionStatus::Warning);
    // exactly warn: Active
    assert_eq!(st.update_health(&pk(1), &pk(3), &pk(4), 15000, 1, 1, 63), Ok(()));
    assert_eq!(st.get_position(&pk(3), &pk(4)).unwrap().status, PositionStatus::Active);
    // far above: Active
    assert_eq!(st.update_health(&pk(1), &pk(3), &pk(4), 20000, 2, 1, 64), Ok(()));
    let p = st.get_position(&pk(3), &pk(4)).unwrap();
    assert_eq!(p.status, PositionStatus::Active);
    assert_eq!(p.health_factor, 20000);
    assert_eq!(p.total_collateral_usd, 2);
    assert_eq!(p.total_debt_usd, 1);
    assert_eq!(p.last_check_ts, 64);
}

#[test]
fn pause_rejects_repeat_and_resume_requires_paused() {
    let mut st = store_with_position();
    assert_eq!(
        st.resume_position(&pk(3), &pk(3), &pk(4)),
        Err(StoreError::Rejected(SolShieldError::PositionNotPaused))
    );
    assert_eq!(st.pause_position(&pk(3), &pk(3), &pk(4)), Ok(()));
    assert_eq!(st.get_position(&pk(3), &pk(4)).unwrap().status, PositionStatus::Paused);
    assert_eq!(
        st.pause_position(&pk(3), &pk(3), &pk(4)),
        Err(StoreError::Rejected(SolShieldError::PositionPaused))
    );
    assert_eq!(st.resume_position(&pk(3), &pk(3), &pk(4)), Ok(()));
    assert_eq!(st.get_position(&pk(3), &pk(4)).unwrap().status, PositionStatus::Active);
    assert_eq!(
        st.resume_position(&pk(3), &pk(3), &pk(4)),
        Err(StoreError::Rejected(SolShieldError::PositionNotPaused))
    );
}

#[test]
fn pause_and_resume_are_owner_only() {
    let mut st = store_with_position();
    assert_eq!(
        st.pause_position(&pk(1), &pk(3), &pk(4)),
        Err(StoreError::Rejected(SolShieldError::UnauthorizedOwner))
    );
    assert_eq!(st.pause_position(&pk(3), &pk(3), &pk(4)), Ok(()));
    assert_eq!(
        st.resume_position(&pk(1), &pk(3), &pk(4)),
        Err(StoreError::Rejected(SolShieldError::UnauthorizedOwner))
    );
}

#[test]
fn update_health_rejects_paused_position() {
    let mut st = store_with_position();
    assert_eq!(st.pause_position(&pk(3), &pk(3), &pk(4)), Ok(()));
    assert_eq!(
        st.update_health(&pk(1), &pk(3), &pk(4), 14000, 1, 1, 70),
        Err(StoreError::Rejected(SolShieldError::PositionPaused))
    );
    assert_eq!(st.get_position(&pk(3), &pk(4)).unwrap().health_factor, 0);
}

#[test]
fn close_is_owner_only_and_removes_the_position() {
    let mut st = store_with_position();
    assert_eq!(
        st.close_position(&pk(1), &pk(3), &pk(4)),
        Err(StoreError::Rejected(SolShieldError::UnauthorizedOwner))
    );
    assert_eq!(st.close_position(&pk(3), &pk(3), &pk(4)), Ok(()));
    assert!(st.get_position(&pk(3), &pk(4)).is_none());
    assert_eq!(st.get_config().unwrap().total_positions, 0);
    assert_eq!(st.close_position(&pk(3), &pk(3), &pk(4)), Err(StoreError::NotFound));
}

#[test]
fn operations_on_unknown_position_fail_not_found() {
    let mut st = store_with_position();
    assert_eq!(
        st.update_health(&pk(1), &pk(3), &pk(9), 14000, 1, 1, 70),
        Err(StoreError::NotFound)
    );
    assert_eq!(st.pause_position(&pk(3), &pk(9), &pk(4)), Err(StoreError::NotFound));
    assert_eq!(
        st.record_rebalance(
            &pk(1),
            &pk(9),
            &pk(4),
            RebalanceAction::DebtRepayment,
            1,
            [0u8; 64],
            [0u8; 32],
            70
        ),
        Err(StoreError::NotFound)
    );
}

#[test]
fn closed_status_is_rejected_by_the_handlers() {
    // the store never keeps a closed position, but the handlers still refuse one
    let agent = pk(1);
    let state = initialize::handler(pk(2), cfg(agent, 15000, 12000)).unwrap();
    let closed = MonitoredPosition { status: PositionStatus::Closed, ..fresh_position() };

    let mut p = closed;
    assert_eq!(
        update_health::handler(&state, &mut p, &agent, 14000, 1, 1, 70),
        Err(SolShieldError::PositionClosed)
    );
    let mut p = closed;
    assert_eq!(
        pause_position::handler(&mut p, &pk(3)),
        Err(SolShieldError::PositionClosed)
    );
    let mut p = closed;
    let mut s = state;
    let r = record_rebalance::handler(
        &mut s,
        &mut p,
        &agent,
        RebalanceAction::CollateralSwap,
        1,
        [0u8; 64],
        [0u8; 32],
        70,
    );
    assert_eq!(r.err(), Some(SolShieldError::PositionClosed));
}

fn fresh_position() -> MonitoredPosition {
    MonitoredPosition {
        owner: pk(3),
        protocol: DeFiProtocol::Kamino,
        obligation_key: pk(4),
        health_factor: 0,
        total_collateral_usd: 0,
        total_debt_usd: 0,
        warn_threshold: 15000,
        critical_threshold: 12000,
        status: PositionStatus::Active,
        rebalance_count: 0,
        last_check_ts: 0,
        last_rebalance_ts: 0,
        created_at: 50,
    }
}

#[test]
fn error_messages_are_stable() {
    assert_eq!(
        SolShieldError::UnauthorizedAgent.message(),
        "Unauthorized: only the agent authority can perform this action"
    );
    assert_eq!(
        SolShieldError::UnauthorizedOwner.message(),
        "Unauthorized: only the position owner can perform this action"
    );
    assert_eq!(SolShieldError::PositionPaused.message(), "Position is currently paused");
    assert_eq!(SolShieldError::PositionClosed.message(), "Position is already closed");
    assert_eq!(SolShieldError::PositionNotPaused.message(), "Position is not paused");
    assert_eq!(
        SolShieldError::MaxPositionsExceeded.message(),
        "Maximum positions per user exceeded"
    );
    assert_eq!(
        SolShieldError::InvalidHealthFactor.message(),
        "Invalid health factor: must be greater than 0"
    );
    assert_eq!(
        SolShieldError::InvalidThresholds.message(),
        "Invalid threshold: warn must be greater than critical"
    );
    assert_eq!(
        SolShieldError::HealthFactorHealthy.message(),
        "Health factor is healthy, no rebalance needed"
    );
    assert_eq!(SolShieldError::RebalanceCooldown.message(), "Rebalance cooldown not elapsed");
    assert_eq!(SolShieldError::InvalidProtocol.message(), "Invalid protocol specified");
}

#[test]
fn default_status_is_active() {
    assert_eq!(PositionStatus::default(), PositionStatus::Active);
}

#[test]
fn record_sizes_leave_padding_for_later_fields() {
    assert_eq!(ProtocolState::SIZE, 171);
    assert_eq!(MonitoredPosition::SIZE, 198);
    assert_eq!(solshield::state::RebalanceRecord::SIZE, 257);
}
