//! A payments engine: client accounts that receive deposits and withdrawals and go
//! through disputes, resolutions and chargebacks.
pub mod amount;
pub mod types;
pub mod ledger;
pub mod handler;
pub mod laws;
pub mod outcomes;
