//! Idempotent payment engine for merchant-code (QR) payments.
//!
//! A payer initiates a payment session against a merchant, then executes it
//! with a secret PIN; the engine debits the payer's balance exactly once per
//! session. Money is held as integer minor units.
pub mod config;
pub mod error;
pub mod model;
pub mod cache;
pub mod auth;
pub mod store;
pub mod merchant;
pub mod payment;
pub mod laws;
