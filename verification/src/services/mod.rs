//! The workflows: invoices, payments with their settlement and recovery, and
//! webhook deliveries.
pub mod invoices;
pub mod payments;
pub mod recovery;
pub mod settlement;
pub mod webhooks;
