//! Data layer of a point-of-sale application.
//!
//! The heart of the crate is the sale-line ledger: it derives the monetary
//! fields of a sale line and keeps each product's stock in step with the
//! lines that exist. Monetary amounts are whole numbers of the currency's
//! minor unit, so every derived amount is exact.

pub mod accounts;
pub mod customer;
pub mod error;
pub mod invoice;
pub mod ledger;
pub mod ledger_laws;
pub mod ledger_state;
pub mod product;
pub mod sale;
pub mod sale_detail;
pub mod store_model;
pub mod text;
pub mod timestamp;
pub mod transaction;
pub mod transaction_laws;
pub mod user;
