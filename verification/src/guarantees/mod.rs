//! What callers can rely on, said of the functions themselves: how what comes out
//! of a call stands to what went in, and how calls stand to one another.
pub mod access;
pub mod answers;
pub mod customers;
pub mod deliveries;
pub mod endpoints;
pub mod invoices;
pub mod payments;
pub mod provider;
pub mod recovery;
pub mod settlement;
pub mod settings;
pub mod texts;
pub mod totality;
