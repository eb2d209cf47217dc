//! Public events emitted when a computation's result is applied.
//!
//! Events are the only information the protocol discloses: a vote is
//! acknowledged with a bare timestamp, and a reveal discloses exactly the
//! aggregate the reveal circuit chose — never raw per-voter data.

use vstd::prelude::*;

use crate::circuits::RevealedAggregate;

verus! {

/// Emitted when a vote's tally update is applied.  It carries only the time
/// of acceptance: nothing about the vote's content.
#[derive(Clone, Copy, Debug, PartialEq, Eq, Structural)]
pub struct VoteEvent {
    pub timestamp: i64,
}

/// Emitted when a reveal completes, carrying the disclosed aggregate: the
/// full bucket-count vector or the single median value, per the configured
/// disclosure policy.
#[derive(Clone, Copy, Debug, PartialEq, Eq)]
pub struct RevealResultEvent {
    pub output: RevealedAggregate,
}

} // verus!
