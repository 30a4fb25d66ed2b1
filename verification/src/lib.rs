//! A payment-intent ledger for a multi-currency checkout flow.
//!
//! A caller opens a payment intent in a supported currency, a verifier later
//! attaches the settlement signature, and a settled payment gates the
//! activation of a membership tier in a sibling service.
//!
//! - [`currency`]: the allow-list of currencies and the rule on amounts.
//! - [`ids`]: payment identifiers, written and read back.
//! - [`payment`], [`response`]: the records, the requests and the answers.
//! - [`ledger`]: the store and the lifecycle of a payment.
//! - [`activation`]: the tier of a payment and the handshake with the
//!   membership service.
//! - [`stats`]: a caller's payments and the ledger's statistics.
//! - [`laws`]: what holds of the ledger in every state.
//! - [`gateway`]: the question-answering gateway of the same service.
//! - [`principal`], [`text`]: the caller's identity, and text search.

pub mod activation;
pub mod currency;
pub mod gateway;
pub mod ids;
pub mod laws;
pub mod ledger;
pub mod payment;
pub mod principal;
pub mod response;
pub mod stats;
pub mod text;
