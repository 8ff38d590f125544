//! What requests may ask for, and what they are answered with.
pub mod customers;
pub mod invoices;
pub mod payments;
pub mod webhooks;
