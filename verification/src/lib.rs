//! Pre-trade risk gate: admission control between a strategy and a venue,
//! with the plain services of a trading loop around it.
//!
//! - `gate_model`: the risk gate as a state machine over integers.
//! - `enhanced_risk`: the executable risk gate, proved to follow the model.
//! - `theorems`: what holds of the model along every history of events.
//! - `risk`: the basic gate, position and rate only.
//! - `models`, `config`: events and limits.
//! - `strategy`, `monitoring`: the strategy that proposes orders and the
//!   counters of the loop.
//! - `types`, `executors`, `load_balancer`, `gas`, `nonce`, `cache`: what
//!   lies behind the venue.

pub mod config;
pub mod models;
pub mod gate_model;
pub mod enhanced_risk;
pub mod risk;
pub mod theorems;
pub mod monitoring;
pub mod cache;
pub mod types;
pub mod executors;
pub mod strategy;
pub mod gas;
pub mod load_balancer;
pub mod nonce;
