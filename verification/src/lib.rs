//! An access-controlled relay that forwards a batch of signing requests to a
//! threshold-signing service and reconciles the outcomes into one ordered
//! result batch.
//!
//! The relay decides; the host acts. Every entry point takes what the host
//! knows (who is calling, how much gas was prepaid, how each sub-call ended)
//! as plain values and returns either an error or a description of what has
//! to be scheduled or handed back.

pub mod budget;
pub mod error;
pub mod types;
pub mod promise;
pub mod chainsig;
pub mod reconcile;
pub mod contract;
