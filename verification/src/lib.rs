//! Tollbooth: a payment gate for HTTP services settled in SPL tokens.
//!
//! The crate holds the rules of the gateway: token amount parsing and
//! rendering, configuration checks, the session ledger and its state
//! transitions, the payment handlers as state machines, relay transaction
//! preparation and validation, route matching and the payment gate.
pub mod text;
pub mod error;
pub mod address;
pub mod amount;
pub mod types;
pub mod config;
pub mod ledger;
pub mod validation;
pub mod crypto;
pub mod transfer;
pub mod mpp;
pub mod gate;
pub mod relay;
pub mod retry;
pub mod flow;
pub mod instruction;
