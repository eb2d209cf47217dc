//! A confidential polling primitive.
//!
//! Participants submit encrypted votes; an external confidential-compute
//! cluster tallies them without exposing any individual vote; the poll's
//! authority may later trigger a one-time reveal that discloses only an
//! aggregate statistic of the distribution.  The ledger-side program
//! validates requests, queues computations for the cluster, and applies each
//! computation's result through a nonce-guarded callback.

pub mod addresses;
pub mod circuits;
pub mod disclosure;
pub mod error;
pub mod events;
pub mod poll;
pub mod poll_state;
pub mod requests;
pub mod vote;
