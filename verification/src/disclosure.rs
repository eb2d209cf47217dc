//! Result disclosure: queueing the one-time reveal and applying its callback.
//!
//! Only the poll's recorded authority may request a reveal; an unauthorized
//! request is rejected before any job is queued, at zero cost to the caller.

use vstd::prelude::*;

use crate::addresses::comp_def_offset;
use crate::addresses::comp_def_offset_spec;
use crate::addresses::derive_companion_refs;
use crate::addresses::derive_poll_address;
use crate::addresses::poll_address;
use crate::addresses::refs_derived;
use crate::circuits::RevealedAggregate;
use crate::error::ErrorCode;
use crate::events::RevealResultEvent;
use crate::poll_state::CIPHERTEXT_REGION_BYTES;
use crate::poll_state::CIPHERTEXT_REGION_OFFSET;
use crate::poll_state::PollAccount;
use crate::poll_state::Pubkey;
use crate::requests::Argument;
use crate::requests::CircuitKind;
use crate::requests::CircuitRegistry;
use crate::requests::ComputationOutputs;
use crate::requests::ComputationQueue;
use crate::requests::ComputationStatus;
use crate::requests::PendingComputation;

verus! {

/// Registers the reveal circuit definition with the cluster, once.
pub fn init_reveal_result_comp_def_handler(registry: &mut CircuitRegistry) -> (r: Result<
    (),
    ErrorCode,
>)
    ensures
        r is Ok <==> !old(registry).contains(
            comp_def_offset_spec(CircuitKind::RevealResult.name_spec()),
        ),
        r is Ok ==> final(registry)@ == old(registry)@.push(
            comp_def_offset_spec(CircuitKind::RevealResult.name_spec()),
        ),
        r is Err ==> final(registry)@ == old(registry)@ && r->Err_0 == ErrorCode::OffsetInUse,
{
    let name = CircuitKind::RevealResult.name_bytes();
    let offset = comp_def_offset(&name);
    registry.register(offset)
}

/// Queues the one-time reveal of a poll's aggregate.  The request is
/// accepted only from the poll's recorded authority: any other caller is
/// rejected synchronously, before a job is queued, with the queue untouched.
/// The queued job carries the poll's current nonce and the byte range of its
/// ciphertext region.
pub fn reveal_result_handler(
    queue: &mut ComputationQueue,
    poll_acc: &PollAccount,
    computation_offset: u64,
    id: u32,
    payer: Pubkey,
) -> (r: Result<(), ErrorCode>)
    requires
        old(queue).wf(),
        id == poll_acc.id,
    ensures
        final(queue).wf(),
        payer@ != poll_acc.authority@ ==> r is Err && r->Err_0 == ErrorCode::InvalidAuthority
            && final(queue)@ == old(queue)@,
        r is Ok <==> payer@ == poll_acc.authority@ && !old(queue).has_offset(
            computation_offset,
        ),
        payer@ == poll_acc.authority@ && old(queue).has_offset(computation_offset) ==> r is Err
            && r->Err_0 == ErrorCode::OffsetInUse && final(queue)@ == old(queue)@,
        r is Ok ==> ({
            let c = final(queue)@.last();
            &&& final(queue)@ == old(queue)@.push(c)
            &&& c.offset == computation_offset
            &&& c.circuit is RevealResult
            &&& c.args@ == seq![
                Argument::PlaintextU128(poll_acc.nonce),
                Argument::Account(
                    c.args@[1]->Account_0,
                    CIPHERTEXT_REGION_OFFSET as u32,
                    CIPHERTEXT_REGION_BYTES as u32,
                ),
            ]
            &&& c.args@[1]->Account_0@ == poll_address(poll_acc.authority@, poll_acc.id)
            &&& c.callback_accounts@ == Seq::<crate::requests::CallbackAccount>::empty()
            &&& refs_derived(c.refs, payer@, computation_offset)
            &&& c.status is Queued
        }),
{
    if !payer.equals(&poll_acc.authority) {
        return Err(ErrorCode::InvalidAuthority);
    }

    let poll_addr = derive_poll_address(&poll_acc.authority, id);
    let refs = derive_companion_refs(&payer, computation_offset);

    let mut args: Vec<Argument> = Vec::new();
    args.push(Argument::PlaintextU128(poll_acc.nonce));
    args.push(Argument::Account(
        poll_addr,
        CIPHERTEXT_REGION_OFFSET as u32,
        CIPHERTEXT_REGION_BYTES as u32,
    ));

    let comp = PendingComputation {
        offset: computation_offset,
        circuit: CircuitKind::RevealResult,
        args,
        callback_accounts: Vec::new(),
        refs,
        status: ComputationStatus::Queued,
    };

    match queue.enqueue(comp) {
        Err(e) => Err(e),
        Ok(()) => Ok(()),
    }
}

/// Applies the reveal callback: a successful disclosure becomes a public
/// event carrying exactly the aggregate the circuit revealed; an empty
/// aggregate surfaces as the explicit no-data condition the circuit
/// reported; a cluster abort surfaces as the terminal abort condition.  No
/// poll state is touched in any case.
pub fn reveal_result_callback_handler(
    output: ComputationOutputs<Result<RevealedAggregate, ErrorCode>>,
) -> (r: Result<RevealResultEvent, ErrorCode>)
    ensures
        output is Abort ==> r is Err && r->Err_0 == ErrorCode::AbortedComputation,
        output matches ComputationOutputs::Success(o) ==> {
            &&& o matches Err(e) ==> r is Err && r->Err_0 == e
            &&& o matches Ok(agg) ==> r is Ok && r->Ok_0 == (RevealResultEvent { output: agg })
        },
{
    let o = match output {
        ComputationOutputs::Success(o) => o,
        ComputationOutputs::Abort => {
            return Err(ErrorCode::AbortedComputation);
        },
    };

    match o {
        Ok(aggregate) => Ok(RevealResultEvent { output: aggregate }),
        Err(e) => Err(e),
    }
}

} // verus!
