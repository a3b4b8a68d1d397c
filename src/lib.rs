//! Valuation core for economically self-sustaining agents: an occupation
//! classifier that prices free-text work instructions, a resolver of
//! per-token model prices, and a survival-status evaluator.
//!
//! Money is held in integer units throughout: wages and payments in cents,
//! balances in cents, token prices in micro-dollars per million tokens.

pub mod status;
pub mod search;
pub mod text;
pub mod catalog;
pub mod classifier;
pub mod cost;
