//! Imports the accounts that a ledger file declares into an accounting
//! service.
//!
//! The library holds every decision of an import and does no input or output:
//! [`ledger`] finds the account declarations, [`books`] resolves the book the
//! accounts go to, [`account`] builds the creation requests, [`registrar`]
//! classifies the answers, and [`run`] says what to report and which request to
//! make next. [`api`] names the endpoints and builds the authentication header.
//!
//! Pattern matching, JSON and HTTP status phrases come from the `regex`,
//! `serde_json` and `http` crates. Each call into them is a small function whose
//! contract is trusted, not proved; everything else is verified against those
//! contracts.

pub mod account;
pub mod api;
pub mod books;
pub mod decode;
pub mod json;
pub mod ledger;
pub mod registrar;
pub mod run;
pub mod status;
pub mod text;
