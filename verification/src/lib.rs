//! Looks up a foreign-exchange rate for a currency pair, compares it with the
//! rate of the day before and keeps a history of the lookups.
//!
//! The library holds the decisions: which inputs name a currency pair, which
//! requests to send, what a provider's answers hold, which way the rate moved
//! and how a lookup is stored and shown again. Reading the terminal, the
//! network, the clock and the database is left to the program around it, which
//! hands plain values in and takes plain values back.

pub mod codes;
pub mod extract;
pub mod fetch;
pub mod history;
pub mod json;
pub mod rate;
pub mod session;
