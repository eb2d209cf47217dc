//! The protocol's failure conditions.

use vstd::prelude::*;

verus! {

/// Failure conditions of the polling protocol.
///
/// Validation errors (`InvalidAuthority`, `OffsetInUse`) are raised
/// synchronously, before any computation is queued.  `AbortedComputation`,
/// `NonceMismatch` and `NoRevealedVotes` are only observable when a
/// computation's callback is processed.
#[derive(Clone, Copy, Debug, PartialEq, Eq, Structural)]
pub enum ErrorCode {
    /// A reveal was requested by a caller other than the poll's recorded
    /// authority; rejected before any job is queued.
    InvalidAuthority,
    /// The caller-chosen computation offset is already in use; queueing a
    /// second computation under it is a hard failure.
    OffsetInUse,
    /// The confidential cluster reported that the computation was aborted;
    /// poll state is left entirely unchanged.
    AbortedComputation,
    /// A callback targeted a nonce that no longer matches the poll's current
    /// nonce (stale or replayed result); it is rejected without any mutation.
    NonceMismatch,
    /// A reveal found a poll with zero total votes: there is no aggregate to
    /// disclose, and no median is fabricated.
    NoRevealedVotes,
    /// A callback arrived for a computation offset that is not currently
    /// queued (never queued, or already consumed).
    UnknownComputation,
}

} // verus!
