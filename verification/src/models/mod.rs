//! The shapes of what the exchange takes and returns.

pub mod auth;
pub mod authentication;
pub mod common;
pub mod deserialize;
pub mod exchange;
pub mod feedback;
pub mod payments;
pub mod replenish;
pub mod transfer;
pub mod user;
pub mod withdraw;
