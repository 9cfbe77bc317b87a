//! Verified core of a Lightning channel marketplace seller bot.
//!
//! The library holds the decision logic of the bot: classifying marketplace
//! orders by status, selecting wallet outputs to fund a channel against a fee
//! target, gating funding on profitability, driving the credential-renewal
//! handshake, and isolating per-order failures within a poll cycle. All
//! network and node I/O lives outside the library; the functions here map
//! plain values (orders, fee rates, spendable outputs, call outcomes) to
//! decisions and are verified against their contracts.

pub mod fee;
pub mod model;
pub mod selector;
pub mod encoding;
pub mod errors;
pub mod credential;
pub mod orchestrator;
pub mod config;
pub mod scheduler;
