//! One module per operation: the state transition each request performs,
//! on plain record values. The entity store in [`crate::store`] looks the
//! records up by key and drives these handlers.

pub mod close_position;
pub mod initialize;
pub mod pause_position;
pub mod record_rebalance;
pub mod register_position;
pub mod resume_position;
pub mod update_health;
