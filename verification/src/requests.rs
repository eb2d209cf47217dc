//! Computation requests and their life cycle.
//!
//! Queueing a computation and applying its result are separated by an
//! asynchronous gap: the external cluster picks the job up, runs the circuit,
//! and only later delivers the output.  Each request is therefore an explicit
//! record keyed by a caller-chosen offset, moving through exactly one of the
//! transitions `Queued -> Applied` or `Queued -> Aborted`.

use vstd::prelude::*;

use crate::addresses::CompanionRefs;
use crate::error::ErrorCode;
use crate::poll_state::PollAccount;
use crate::poll_state::Pubkey;

verus! {

/// One argument handed to a confidential circuit.
#[derive(Clone, Copy, Debug, PartialEq, Eq)]
pub enum Argument {
    /// A public 128-bit value, such as a nonce.
    PlaintextU128(u128),
    /// An ephemeral encryption public key supplied by the voter.
    ArcisPubkey([u8; 32]),
    /// A single encrypted value, as one fixed-width ciphertext.
    EncryptedBool([u8; 32]),
    /// A byte range of a ledger account: identity, byte offset, byte length.
    Account(Pubkey, u32, u32),
}

/// One account the cluster must pass back to the callback instruction.
#[derive(Clone, Copy, Debug, PartialEq, Eq)]
pub struct CallbackAccount {
    pub pubkey: Pubkey,
    pub is_writable: bool,
}

/// Which confidential circuit a computation runs, and so which callback its
/// output must be delivered to.
#[derive(Clone, Copy, Debug, PartialEq, Eq, Structural)]
pub enum CircuitKind {
    InitVoteStats,
    Vote,
    RevealResult,
}

impl CircuitKind {
    /// The circuit's registered name.
    pub open spec fn name_spec(self) -> Seq<u8> {
        match self {
            // "init_vote_stats"
            CircuitKind::InitVoteStats => seq![
                105u8, 110u8, 105u8, 116u8, 95u8, 118u8, 111u8, 116u8, 101u8, 95u8, 115u8,
                116u8, 97u8, 116u8, 115u8,
            ],
            // "vote"
            CircuitKind::Vote => seq![118u8, 111u8, 116u8, 101u8],
            // "reveal_result"
            CircuitKind::RevealResult => seq![
                114u8, 101u8, 118u8, 101u8, 97u8, 108u8, 95u8, 114u8, 101u8, 115u8, 117u8,
                108u8, 116u8,
            ],
        }
    }

    /// The circuit's registered name, as bytes.
    pub fn name_bytes(&self) -> (r: Vec<u8>)
        ensures
            r@ == self.name_spec(),
    {
        match self {
            CircuitKind::InitVoteStats => {
                let name: [u8; 15] = [
                    105, 110, 105, 116, 95, 118, 111, 116, 101, 95, 115, 116, 97, 116, 115,
                ];
                let r = vstd::slice::slice_to_vec(name.as_slice());
                proof {
                    assert(r@ =~= self.name_spec());
                }
                r
            },
            CircuitKind::Vote => {
                let name: [u8; 4] = [118, 111, 116, 101];
                let r = vstd::slice::slice_to_vec(name.as_slice());
                proof {
                    assert(r@ =~= self.name_spec());
                }
                r
            },
            CircuitKind::RevealResult => {
                let name: [u8; 13] = [
                    114, 101, 118, 101, 97, 108, 95, 114, 101, 115, 117, 108, 116,
                ];
                let r = vstd::slice::slice_to_vec(name.as_slice());
                proof {
                    assert(r@ =~= self.name_spec());
                }
                r
            },
        }
    }
}

/// Where a computation request stands in its life cycle.
#[derive(Clone, Copy, Debug, PartialEq, Eq, Structural)]
pub enum ComputationStatus {
    /// Waiting for the cluster to deliver its result.
    Queued,
    /// The result arrived and was handed to the callback.
    Applied,
    /// The cluster reported the computation aborted.
    Aborted,
}

/// One in-flight computation: the ephemeral tracking record created when a
/// job is queued, identified by its caller-chosen offset, and consumed when
/// its callback lands.
pub struct PendingComputation {
    /// Caller-chosen identifier; colliding with a live record is a hard
    /// failure.
    pub offset: u64,
    /// The circuit to run, which also names the callback to invoke.
    pub circuit: CircuitKind,
    /// The argument payload for the circuit.
    pub args: Vec<Argument>,
    /// Accounts the callback instruction must receive.
    pub callback_accounts: Vec<CallbackAccount>,
    /// Deterministic companion references for the cluster.
    pub refs: CompanionRefs,
    pub status: ComputationStatus,
}

/// A resolved copy of `c`: `Applied` on success, `Aborted` otherwise.
pub open spec fn resolve_spec(c: PendingComputation, success: bool) -> PendingComputation {
    PendingComputation {
        status: if success {
            ComputationStatus::Applied
        } else {
            ComputationStatus::Aborted
        },
        ..c
    }
}

/// The storage of computation-tracking records, keyed by offset.
pub struct ComputationQueue {
    items: Vec<PendingComputation>,
}

impl View for ComputationQueue {
    type V = Seq<PendingComputation>;

    closed spec fn view(&self) -> Seq<PendingComputation> {
        self.items@
    }
}

impl ComputationQueue {
    /// Offsets of live records never collide.
    pub open spec fn wf(self) -> bool {
        forall|i: int, j: int|
            0 <= i < j < self@.len() ==> self@[i].offset != self@[j].offset
    }

    /// Some record is stored under `offset`.
    pub open spec fn has_offset(self, offset: u64) -> bool {
        exists|i: int| 0 <= i < self@.len() && self@[i].offset == offset
    }

    /// The position of the record stored under `offset`.
    pub open spec fn index_of(self, offset: u64) -> int {
        choose|i: int| 0 <= i < self@.len() && self@[i].offset == offset
    }

    /// The record stored under `offset`.
    pub open spec fn record_at(self, offset: u64) -> PendingComputation {
        self@[self.index_of(offset)]
    }

    pub fn new() -> (r: ComputationQueue)
        ensures
            r@ == Seq::<PendingComputation>::empty(),
            r.wf(),
    {
        ComputationQueue { items: Vec::new() }
    }

    /// Finds the position of the record stored under `offset`.
    fn find(&self, offset: u64) -> (r: Option<usize>)
        ensures
            r is Some <==> self.has_offset(offset),
            r matches Some(i) ==> i < self@.len() && self@[i as int].offset == offset,
    {
        let mut i: usize = 0;
        while i < self.items.len()
            invariant
                i <= self@.len(),
                forall|j: int| 0 <= j < i ==> self@[j].offset != offset,
            decreases self@.len() - i,
        {
            if self.items[i].offset == offset {
                return Some(i);
            }
            i = i + 1;
        }
        None
    }

    /// The record stored under `offset`, if any.
    pub fn get(&self, offset: u64) -> (r: Option<&PendingComputation>)
        requires
            self.wf(),
        ensures
            r is Some <==> self.has_offset(offset),
            r matches Some(c) ==> *c == self.record_at(offset),
    {
        match self.find(offset) {
            Some(i) => {
                let c = &self.items[i];
                proof {
                    assert(self.index_of(offset) == i);
                }
                Some(c)
            },
            None => None,
        }
    }

    /// The status of the record stored under `offset`, if any.
    pub fn status_of(&self, offset: u64) -> (r: Option<ComputationStatus>)
        ensures
            r is Some <==> self.has_offset(offset),
            r matches Some(s) ==> exists|i: int|
                0 <= i < self@.len() && self@[i].offset == offset && self@[i].status == s,
    {
        match self.find(offset) {
            Some(i) => Some(self.items[i].status),
            None => None,
        }
    }

    /// Stores a new request.  A record under the same offset — live or
    /// already consumed — makes the collision a hard failure, surfaced here
    /// before any orchestration takes effect.
    pub fn enqueue(&mut self, comp: PendingComputation) -> (r: Result<(), ErrorCode>)
        requires
            old(self).wf(),
        ensures
            final(self).wf(),
            r is Ok <==> !old(self).has_offset(comp.offset),
            r is Ok ==> final(self)@ == old(self)@.push(comp),
            r is Err ==> final(self)@ == old(self)@ && r->Err_0 == ErrorCode::OffsetInUse,
    {
        match self.find(comp.offset) {
            Some(_) => Err(ErrorCode::OffsetInUse),
            None => {
                self.items.push(comp);
                Ok(())
            },
        }
    }

    /// Accepts the cluster's completion notice for the record under
    /// `offset`, moving it from `Queued` to `Applied` or `Aborted`, and says
    /// which circuit's callback must now be invoked.  A notice for an
    /// unknown or already-consumed record is rejected without any change.
    pub fn deliver(&mut self, offset: u64, success: bool) -> (r: Result<CircuitKind, ErrorCode>)
        requires
            old(self).wf(),
        ensures
            final(self).wf(),
            r is Ok <==> old(self).has_offset(offset) && old(self).record_at(offset).status
                is Queued,
            r is Ok ==> {
                &&& r->Ok_0 == old(self).record_at(offset).circuit
                &&& final(self)@ == old(self)@.update(
                    old(self).index_of(offset),
                    resolve_spec(old(self).record_at(offset), success),
                )
            },
            r is Err ==> final(self)@ == old(self)@ && r->Err_0
                == ErrorCode::UnknownComputation,
    {
        match self.find(offset) {
            Some(i) => {
                proof {
                    assert(old(self).index_of(offset) == i);
                }
                let queued = match self.items[i].status {
                    ComputationStatus::Queued => true,
                    _ => false,
                };
                if !queued {
                    return Err(ErrorCode::UnknownComputation);
                }
                let circuit = self.items[i].circuit;
                self.items[i].status = if success {
                    ComputationStatus::Applied
                } else {
                    ComputationStatus::Aborted
                };
                proof {
                    assert(final(self)@[i as int] == resolve_spec(
                        old(self).record_at(offset),
                        success,
                    ));
                }
                Ok(circuit)
            },
            None => Err(ErrorCode::UnknownComputation),
        }
    }
}

/// What the cluster delivers for one computation: the circuit's output on
/// success, or a bare abort notice.  An abort guarantees zero state
/// mutation.
pub enum ComputationOutputs<T> {
    Success(T),
    Abort,
}

/// The encrypted-tally output of the initialisation and tally circuits: a
/// fresh ciphertext snapshot, the nonce of the snapshot it replaces, and the
/// freshly minted nonce that seals the new one.
#[derive(Clone, Copy, Debug, PartialEq, Eq)]
pub struct EncryptedTallyUpdate {
    /// The poll nonce the computation read; the update only applies while
    /// the poll still carries it.
    pub target_nonce: u128,
    /// The new ciphertext slots, one per bucket.
    pub ciphertexts: [[u8; 32]; 7],
    /// The freshly minted nonce sealing the new snapshot.
    pub new_nonce: u128,
}

/// The poll with its ciphertext snapshot and nonce overwritten by the
/// circuit's output; all other fields keep their values.
pub open spec fn tally_applied(poll: PollAccount, u: EncryptedTallyUpdate) -> PollAccount {
    PollAccount { vote_state: u.ciphertexts, nonce: u.new_nonce, ..poll }
}

/// The poll state after a tally callback is processed: the output is applied
/// only if it is a success whose target nonce still matches the poll's
/// current nonce — a compare-and-swap on the nonce.  A stale target nonce or
/// an abort leaves the poll entirely unchanged.
pub open spec fn next_poll_state(
    poll: PollAccount,
    output: ComputationOutputs<EncryptedTallyUpdate>,
) -> PollAccount {
    match output {
        ComputationOutputs::Success(u) => if u.target_nonce == poll.nonce {
            tally_applied(poll, u)
        } else {
            poll
        },
        ComputationOutputs::Abort => poll,
    }
}

/// The circuit definitions registered with the cluster, keyed by their
/// derived offsets.
pub struct CircuitRegistry {
    offsets: Vec<u32>,
}

impl View for CircuitRegistry {
    type V = Seq<u32>;

    closed spec fn view(&self) -> Seq<u32> {
        self.offsets@
    }
}

impl CircuitRegistry {
    pub open spec fn contains(self, offset: u32) -> bool {
        self@.contains(offset)
    }

    pub fn new() -> (r: CircuitRegistry)
        ensures
            r@ == Seq::<u32>::empty(),
    {
        CircuitRegistry { offsets: Vec::new() }
    }

    /// Registers a circuit definition under its offset, once; registering an
    /// offset a second time is a collision, rejected without change.
    pub fn register(&mut self, offset: u32) -> (r: Result<(), ErrorCode>)
        ensures
            r is Ok <==> !old(self).contains(offset),
            r is Ok ==> final(self)@ == old(self)@.push(offset),
            r is Err ==> final(self)@ == old(self)@ && r->Err_0 == ErrorCode::OffsetInUse,
    {
        let mut i: usize = 0;
        while i < self.offsets.len()
            invariant
                i <= self@.len(),
                forall|j: int| 0 <= j < i ==> self@[j] != offset,
            decreases self@.len() - i,
        {
            if self.offsets[i] == offset {
                return Err(ErrorCode::OffsetInUse);
            }
            i = i + 1;
        }
        self.offsets.push(offset);
        Ok(())
    }

    /// Whether a circuit definition is registered under `offset`.
    pub fn is_registered(&self, offset: u32) -> (r: bool)
        ensures
            r == self.contains(offset),
    {
        let mut i: usize = 0;
        while i < self.offsets.len()
            invariant
                i <= self@.len(),
                forall|j: int| 0 <= j < i ==> self@[j] != offset,
            decreases self@.len() - i,
        {
            if self.offsets[i] == offset {
                return true;
            }
            i = i + 1;
        }
        false
    }
}

} // verus!
