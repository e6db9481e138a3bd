//! Decision core of a governance-rewards crank: classification of remote
//! failures, the per-batch progress state machine, filtered enumeration of
//! eligible accounts and the per-entity instruction builders.
pub mod address;
pub mod batch;
pub mod failure;
pub mod instructions;
pub mod scan;
pub mod state;
