//! Poll creation: queueing the tally-initialisation computation and applying
//! its callback.

use vstd::prelude::*;

use crate::addresses::comp_def_offset;
use crate::addresses::comp_def_offset_spec;
use crate::addresses::derive_companion_refs;
use crate::addresses::derive_poll_address;
use crate::addresses::poll_address;
use crate::addresses::refs_derived;
use crate::error::ErrorCode;
use crate::poll_state::LAYOUT_VERSION;
use crate::poll_state::PollAccount;
use crate::poll_state::Pubkey;
use crate::requests::Argument;
use crate::requests::CallbackAccount;
use crate::requests::CircuitKind;
use crate::requests::CircuitRegistry;
use crate::requests::ComputationOutputs;
use crate::requests::ComputationQueue;
use crate::requests::ComputationStatus;
use crate::requests::EncryptedTallyUpdate;
use crate::requests::PendingComputation;
use crate::requests::next_poll_state;
use crate::requests::tally_applied;

verus! {

/// All ciphertext slots of the record are zeroed.
pub open spec fn zeroed_slots(vs: [[u8; 32]; 7]) -> bool {
    forall|i: int, j: int| 0 <= i < 7 && 0 <= j < 32 ==> vs@[i]@[j] == 0u8
}

/// Registers the tally-initialisation circuit definition with the cluster,
/// once.
pub fn init_vote_stats_comp_def_handle(registry: &mut CircuitRegistry) -> (r: Result<
    (),
    ErrorCode,
>)
    ensures
        r is Ok <==> !old(registry).contains(
            comp_def_offset_spec(CircuitKind::InitVoteStats.name_spec()),
        ),
        r is Ok ==> final(registry)@ == old(registry)@.push(
            comp_def_offset_spec(CircuitKind::InitVoteStats.name_spec()),
        ),
        r is Err ==> final(registry)@ == old(registry)@ && r->Err_0 == ErrorCode::OffsetInUse,
{
    let name = CircuitKind::InitVoteStats.name_bytes();
    let offset = comp_def_offset(&name);
    registry.register(offset)
}

/// Creates a new poll record owned by `payer` and queues the
/// tally-initialisation computation under the caller-chosen offset.  The
/// record starts with zeroed ciphertext slots and the client-chosen nonce;
/// the queued job carries that nonce and will deliver the first encrypted
/// snapshot through the initialisation callback.
pub fn create_new_poll(
    queue: &mut ComputationQueue,
    computation_offset: u64,
    id: u32,
    price: u64,
    mint0: Pubkey,
    mint1: Pubkey,
    nonce: u128,
    payer: Pubkey,
) -> (r: Result<PollAccount, ErrorCode>)
    requires
        old(queue).wf(),
    ensures
        final(queue).wf(),
        r is Ok <==> !old(queue).has_offset(computation_offset),
        r is Err ==> final(queue)@ == old(queue)@ && r->Err_0 == ErrorCode::OffsetInUse,
        r matches Ok(poll) ==> {
            &&& poll.layout_version == LAYOUT_VERSION
            &&& zeroed_slots(poll.vote_state)
            &&& poll.id == id
            &&& poll.authority == payer
            &&& poll.nonce == nonce
            &&& poll.price == price
            &&& poll.mint0 == mint0
            &&& poll.mint1 == mint1
        },
        r is Ok ==> ({
            let c = final(queue)@.last();
            &&& final(queue)@ == old(queue)@.push(c)
            &&& c.offset == computation_offset
            &&& c.circuit is InitVoteStats
            &&& c.args@ == seq![Argument::PlaintextU128(nonce)]
            &&& c.callback_accounts@.len() == 1
            &&& c.callback_accounts@[0].pubkey@ == poll_address(payer@, id)
            &&& c.callback_accounts@[0].is_writable
            &&& refs_derived(c.refs, payer@, computation_offset)
            &&& c.status is Queued
        }),
{
    let poll_addr = derive_poll_address(&payer, id);
    let refs = derive_companion_refs(&payer, computation_offset);

    let mut args: Vec<Argument> = Vec::new();
    args.push(Argument::PlaintextU128(nonce));

    let mut callback_accounts: Vec<CallbackAccount> = Vec::new();
    callback_accounts.push(CallbackAccount { pubkey: poll_addr, is_writable: true });

    let comp = PendingComputation {
        offset: computation_offset,
        circuit: CircuitKind::InitVoteStats,
        args,
        callback_accounts,
        refs,
        status: ComputationStatus::Queued,
    };

    match queue.enqueue(comp) {
        Err(e) => Err(e),
        Ok(()) => {
            let poll = PollAccount {
                layout_version: LAYOUT_VERSION,
                vote_state: [[0u8; 32]; 7],
                id,
                authority: payer,
                nonce,
                price,
                mint0,
                mint1,
            };
            Ok(poll)
        },
    }
}

/// Applies the tally-initialisation callback: on an authenticated success
/// whose target nonce still matches, the poll's ciphertext slots and nonce
/// are overwritten with the circuit's output; a stale nonce or a reported
/// abort leaves the poll entirely unchanged.
pub fn init_vote_stats_callback_handler(
    poll_acc: &mut PollAccount,
    output: ComputationOutputs<EncryptedTallyUpdate>,
) -> (r: Result<(), ErrorCode>)
    ensures
        *final(poll_acc) == next_poll_state(*old(poll_acc), output),
        output is Abort ==> r is Err && r->Err_0 == ErrorCode::AbortedComputation,
        output matches ComputationOutputs::Success(u) ==> {
            &&& u.target_nonce != old(poll_acc).nonce ==> r is Err && r->Err_0
                == ErrorCode::NonceMismatch
            &&& u.target_nonce == old(poll_acc).nonce ==> r is Ok && *final(poll_acc)
                == tally_applied(*old(poll_acc), u)
        },
{
    let o = match output {
        ComputationOutputs::Success(o) => o,
        ComputationOutputs::Abort => {
            return Err(ErrorCode::AbortedComputation);
        },
    };

    if o.target_nonce != poll_acc.nonce {
        return Err(ErrorCode::NonceMismatch);
    }

    poll_acc.vote_state = o.ciphertexts;
    poll_acc.nonce = o.new_nonce;

    Ok(())
}

} // verus!
