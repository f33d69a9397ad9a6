//! Consensus core of a federated Chaumian mint: request admission, the
//! proposal pool, application of delivered epochs and aggregation of
//! threshold-signature shares, as a deterministic state machine.
pub mod types;
pub mod pool;
pub mod consensus;
pub mod epoch;
pub mod laws;
