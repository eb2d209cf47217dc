//! Vote submission: queueing one tally update and applying its callback.
//!
//! The asynchronous gap between queueing and the callback is guarded by the
//! poll's nonce alone: a tally output is applied as a compare-and-swap on the
//! nonce, so a stale or replayed output fails closed.

use vstd::prelude::*;

use crate::addresses::comp_def_offset;
use crate::addresses::comp_def_offset_spec;
use crate::addresses::derive_companion_refs;
use crate::addresses::derive_poll_address;
use crate::addresses::poll_address;
use crate::addresses::refs_derived;
use crate::error::ErrorCode;
use crate::events::VoteEvent;
use crate::poll_state::CIPHERTEXT_REGION_BYTES;
use crate::poll_state::CIPHERTEXT_REGION_OFFSET;
use crate::poll_state::PollAccount;
use crate::poll_state::Pubkey;
use crate::requests::Argument;
use crate::requests::CallbackAccount;
use crate::requests::CircuitKind;
use crate::requests::CircuitRegistry;
use crate::requests::ComputationOutputs;
use crate::requests::ComputationQueue;
use crate::requests::ComputationStatus;
use crate::requests::EncryptedTallyUpdate;
use crate::requests::PendingComputation;
use crate::requests::next_poll_state;
use crate::requests::tally_applied;

verus! {

/// Registers the tally circuit definition with the cluster, once.
pub fn init_vote_comp_def_handler(registry: &mut CircuitRegistry) -> (r: Result<(), ErrorCode>)
    ensures
        r is Ok <==> !old(registry).contains(
            comp_def_offset_spec(CircuitKind::Vote.name_spec()),
        ),
        r is Ok ==> final(registry)@ == old(registry)@.push(
            comp_def_offset_spec(CircuitKind::Vote.name_spec()),
        ),
        r is Err ==> final(registry)@ == old(registry)@ && r->Err_0 == ErrorCode::OffsetInUse,
{
    let name = CircuitKind::Vote.name_bytes();
    let offset = comp_def_offset(&name);
    registry.register(offset)
}

/// Queues one tally update for an encrypted vote.  Anyone may vote: the
/// request carries the voter's ephemeral encryption key, the per-submission
/// nonce, the vote ciphertext, the poll's current nonce, and the byte range
/// of the poll's ciphertext region, in that order.  The poll record itself
/// is not touched: it only changes when the callback lands.
pub fn vote_handler(
    queue: &mut ComputationQueue,
    poll_acc: &PollAccount,
    computation_offset: u64,
    id: u32,
    vote: [u8; 32],
    vote_encryption_pubkey: [u8; 32],
    vote_nonce: u128,
    payer: Pubkey,
) -> (r: Result<(), ErrorCode>)
    requires
        old(queue).wf(),
        id == poll_acc.id,
    ensures
        final(queue).wf(),
        r is Ok <==> !old(queue).has_offset(computation_offset),
        r is Err ==> final(queue)@ == old(queue)@ && r->Err_0 == ErrorCode::OffsetInUse,
        r is Ok ==> ({
            let c = final(queue)@.last();
            &&& final(queue)@ == old(queue)@.push(c)
            &&& c.offset == computation_offset
            &&& c.circuit is Vote
            &&& c.args@ == seq![
                Argument::ArcisPubkey(vote_encryption_pubkey),
                Argument::PlaintextU128(vote_nonce),
                Argument::EncryptedBool(vote),
                Argument::PlaintextU128(poll_acc.nonce),
                Argument::Account(
                    c.args@[4]->Account_0,
                    CIPHERTEXT_REGION_OFFSET as u32,
                    CIPHERTEXT_REGION_BYTES as u32,
                ),
            ]
            &&& c.args@[4]->Account_0@ == poll_address(poll_acc.authority@, poll_acc.id)
            &&& c.callback_accounts@.len() == 1
            &&& c.callback_accounts@[0].pubkey@ == poll_address(poll_acc.authority@, poll_acc.id)
            &&& c.callback_accounts@[0].is_writable
            &&& refs_derived(c.refs, payer@, computation_offset)
            &&& c.status is Queued
        }),
{
    let poll_addr = derive_poll_address(&poll_acc.authority, id);
    let refs = derive_companion_refs(&payer, computation_offset);

    let mut args: Vec<Argument> = Vec::new();
    args.push(Argument::ArcisPubkey(vote_encryption_pubkey));
    args.push(Argument::PlaintextU128(vote_nonce));
    args.push(Argument::EncryptedBool(vote));
    args.push(Argument::PlaintextU128(poll_acc.nonce));
    args.push(Argument::Account(
        poll_addr,
        CIPHERTEXT_REGION_OFFSET as u32,
        CIPHERTEXT_REGION_BYTES as u32,
    ));

    let mut callback_accounts: Vec<CallbackAccount> = Vec::new();
    callback_accounts.push(CallbackAccount { pubkey: poll_addr, is_writable: true });

    let comp = PendingComputation {
        offset: computation_offset,
        circuit: CircuitKind::Vote,
        args,
        callback_accounts,
        refs,
        status: ComputationStatus::Queued,
    };

    match queue.enqueue(comp) {
        Err(e) => Err(e),
        Ok(()) => Ok(()),
    }
}

/// Applies the tally callback: on an authenticated success whose target
/// nonce still matches the poll's current nonce, the poll's ciphertext slots
/// and nonce are overwritten with the circuit's output and a timestamped
/// acceptance event (carrying no vote content) is returned.  A stale target
/// nonce or a reported abort leaves the poll entirely unchanged.
pub fn vote_callback_handler(
    poll_acc: &mut PollAccount,
    output: ComputationOutputs<EncryptedTallyUpdate>,
    timestamp: i64,
) -> (r: Result<VoteEvent, ErrorCode>)
    ensures
        *final(poll_acc) == next_poll_state(*old(poll_acc), output),
        output is Abort ==> r is Err && r->Err_0 == ErrorCode::AbortedComputation,
        output matches ComputationOutputs::Success(u) ==> {
            &&& u.target_nonce != old(poll_acc).nonce ==> r is Err && r->Err_0
                == ErrorCode::NonceMismatch
            &&& u.target_nonce == old(poll_acc).nonce ==> r is Ok && r->Ok_0 == (VoteEvent {
                timestamp,
            }) && *final(poll_acc) == tally_applied(*old(poll_acc), u)
        },
{
    let o = match output {
        ComputationOutputs::Success(o) => o,
        ComputationOutputs::Abort => {
            return Err(ErrorCode::AbortedComputation);
        },
    };

    if o.target_nonce != poll_acc.nonce {
        return Err(ErrorCode::NonceMismatch);
    }

    poll_acc.vote_state = o.ciphertexts;
    poll_acc.nonce = o.new_nonce;

    Ok(VoteEvent { timestamp })
}

/// Stale-callback law: a tally output whose target nonce no longer matches
/// the poll's current nonce leaves every counter slot and the nonce exactly
/// as they were — no partial or corrupting write.
pub proof fn lemma_stale_callback_ignored(poll: PollAccount, u: EncryptedTallyUpdate)
    requires
        u.target_nonce != poll.nonce,
    ensures
        next_poll_state(poll, ComputationOutputs::Success(u)) == poll,
{
}

/// Replay law: delivering the same tally output twice applies it at most
/// once.  The circuit mints a nonce distinct from the one it consumed, so
/// once the output is applied the poll's nonce has moved on, and the second
/// delivery fails the compare-and-swap and changes nothing.
pub proof fn lemma_replay_rejected(poll: PollAccount, u: EncryptedTallyUpdate)
    requires
        u.new_nonce != u.target_nonce,
    ensures
        next_poll_state(
            next_poll_state(poll, ComputationOutputs::Success(u)),
            ComputationOutputs::Success(u),
        ) == next_poll_state(poll, ComputationOutputs::Success(u)),
        u.target_nonce == poll.nonce ==> next_poll_state(poll, ComputationOutputs::Success(u))
            == tally_applied(poll, u),
{
}

} // verus!
