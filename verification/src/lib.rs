//! Decision core of a dump-and-hedge bot for fifteen-minute Up/Down markets.
//!
//! The bot watches the two outcome tokens of a market at the start of a round,
//! buys the one whose price is dumped, and buys the other one as soon as the pair
//! costs little enough, or after waiting too long. The library makes the decisions
//! and keeps the books. The exchange, the clock and the files are its caller's.

pub mod balance;
pub mod bookkeeping;
pub mod closing;
pub mod closure;
pub mod config;
pub mod discovery;
pub mod double;
pub mod history;
pub mod laws;
pub mod ledger;
pub mod market;
pub mod model;
pub mod rules;
pub mod schedule;
pub mod table;
pub mod text;
pub mod trader;
pub mod units;
