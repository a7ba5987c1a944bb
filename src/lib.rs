//! A custodial payment ledger: payments are pooled into a vault, each one
//! leaves an immutable receipt, and a single authority may withdraw the
//! pooled balance or hand its authority to another identity.
pub mod identity;
pub mod address;
pub mod state;
pub mod instructions;
pub mod history;
