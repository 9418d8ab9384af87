//! A payments engine: per-client balances maintained from an ordered stream of
//! deposits, withdrawals, disputes, resolutions and chargebacks.
pub mod amount;
pub mod client;
pub mod transaction;
pub mod account;
pub mod repository;
pub mod engine;
pub mod codec;
