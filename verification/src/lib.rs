//! Verified core of the TrustTrove invoice-financing contracts: the error and
//! status enumerations, the event schema, and the ledger models that the test
//! token and registry contracts keep in contract storage.

pub mod errors;
pub mod events;
mod store;
pub mod types;
pub mod registry;
pub mod token;
