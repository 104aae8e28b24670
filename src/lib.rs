//! Expiry monitoring for IBC light clients: classification of the remaining
//! trusting period, change-gated alerting, and the decisions that drive the
//! remote queries of one check cycle.

pub mod alert;
pub mod classify;
pub mod config;
pub mod evaluation;
pub mod gateway;
pub mod metrics;
pub mod monitor;
pub mod state;
pub mod types;
