//! Billing core: invoices, idempotent payments, webhook delivery and a mock
//! payment provider, as verified decisions on plain values.
pub mod auth;
pub mod concurrency;
pub mod config;
pub mod controllers;
pub mod crypto;
pub mod error;
pub mod guarantees;
pub mod http;
pub mod ids;
pub mod interleaving;
pub mod ledger;
pub mod mock_psp;
pub mod models;
pub mod records;
pub mod services;
pub mod text;
