//! Credit accounting and payment reconciliation for a pay-per-request API.
//!
//! The library holds the verified core: the keyed payment store, the
//! settlement rules shared by webhooks and polling, the exchange-rate cache
//! and the provider-side checks (webhook signatures, invoice parameters).
//! Network access, JSON decoding and the HTTP layer live outside of it.

pub mod auth;
pub mod coinbase;
pub mod config;
pub mod lightning;
pub mod market;
pub mod models;
pub mod quote;
pub mod service;
pub mod storage;
pub mod table;
pub mod text;
