//! Decision logic of a hedged staking position kept across several venues.
//!
//! A margin venue holds a short hedge, a staking venue holds the staked token,
//! a bridge venue converts and relays funds, and a custody wallet holds funds
//! in transit. Each cycle one balance snapshot goes in and one corrective
//! action comes out (`strategy::detect_state`), with its status text
//! (`report::status_message`); `actions` turns that action into the one venue
//! operation that carries it out. Amounts are eight-place fixed-point
//! decimals (`fixed`) in two unit types that only a price converts between
//! (`types`). `laws` states and proves what the engine guarantees.
pub mod actions;
pub mod config;
pub mod consts;
pub mod fixed;
pub mod laws;
pub mod monitoring;
pub mod notifications;
pub mod report;
pub mod strategy;
pub mod types;
pub mod utils;
