//! Request-handling core of a storage pool management service: the outcome
//! model of idempotent actions, the classification of errors into reply codes,
//! the validation that precedes every engine call, and the ledger that lets a
//! pool creation request wait for its asynchronous device setup.

pub mod action;
pub mod encryption;
pub mod error;
pub mod ledger;
pub mod methods;
pub mod pool_uuid;
pub mod text;
