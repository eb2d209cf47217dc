use confidential_poll::circuits::RevealedAggregate;
use confidential_poll::disclosure::init_reveal_result_comp_def_handler;
use confidential_poll::disclosure::reveal_result_callback_handler;
use confidential_poll::disclosure::reveal_result_handler;
use confidential_poll::error::ErrorCode;
use confidential_poll::events::RevealResultEvent;
use confidential_poll::events::VoteEvent;
use confidential_poll::poll::create_new_poll;
use confidential_poll::poll::init_vote_stats_callback_handler;
use confidential_poll::poll::init_vote_stats_comp_def_handle;
use confidential_poll::poll_state::PollAccount;
use confidential_poll::poll_state::Pubkey;
use confidential_poll::poll_state::LAYOUT_VERSION;
use confidential_poll::requests::Argument;
use confidential_poll::requests::CircuitKind;
use confidential_poll::requests::CircuitRegistry;
use confidential_poll::requests::ComputationOutputs;
use confidential_poll::requests::ComputationQueue;
use confidential_poll::requests::ComputationStatus;
use confidential_poll::requests::EncryptedTallyUpdate;
use confidential_poll::vote::init_vote_comp_def_handler;
use confidential_poll::vote::vote_callback_handler;
use confidential_poll::vote::vote_handler;

fn key(tag: u8) -> Pubkey {
    Pubkey::new([tag; 32])
}

fn fresh_poll(authority: Pubkey, nonce: u128) -> (ComputationQueue, PollAccount) {
    let mut queue = ComputationQueue::new();
    let poll = create_new_poll(&mut queue, 1, 42, 1_000, key(10), key(11), nonce, authority)
        .expect("fresh offset must be accepted");
    (queue, poll)
}

fn slots(tag: u8) -> [[u8; 32]; 7] {
    [[tag; 32]; 7]
}

#[test]
fn create_new_poll_initialises_the_record() {
    let authority = key(1);
    let (queue, poll) = fresh_poll(authority, 77);
    assert_eq!(poll.layout_version, LAYOUT_VERSION);
    assert_eq!(poll.vote_state, [[0u8; 32]; 7]);
    assert_eq!(poll.id, 42);
    assert_eq!(poll.authority, authority);
    assert_eq!(poll.nonce, 77);
    assert_eq!(poll.price, 1_000);

    let record = queue.get(1).expect("the initialisation job must be queued");
    assert_eq!(record.circuit, CircuitKind::InitVoteStats);
    assert_eq!(record.status, ComputationStatus::Queued);
    assert_eq!(record.args, vec![Argument::PlaintextU128(77)]);
    assert_eq!(record.callback_accounts.len(), 1);
    assert!(record.callback_accounts[0].is_writable);
}

#[test]
fn reused_offset_is_a_hard_failure() {
    let authority = key(1);
    let (mut queue, poll) = fresh_poll(authority, 77);
    let r = create_new_poll(&mut queue, 1, 43, 0, key(10), key(11), 78, authority);
    assert_eq!(r, Err(ErrorCode::OffsetInUse));
    // The first record is untouched.
    assert_eq!(queue.status_of(1), Some(ComputationStatus::Queued));
    let r = vote_handler(&mut queue, &poll, 1, 42, [9; 32], [8; 32], 5, key(2));
    assert_eq!(r, Err(ErrorCode::OffsetInUse));
}

#[test]
fn vote_request_carries_the_circuit_arguments() {
    let authority = key(1);
    let (mut queue, poll) = fresh_poll(authority, 77);
    let ciphertext = [9u8; 32];
    let session_key = [8u8; 32];
    vote_handler(&mut queue, &poll, 2, 42, ciphertext, session_key, 555, key(2))
        .expect("fresh offset must be accepted");

    let record = queue.get(2).expect("the tally job must be queued");
    assert_eq!(record.circuit, CircuitKind::Vote);
    assert_eq!(record.status, ComputationStatus::Queued);
    assert_eq!(record.args.len(), 5);
    assert_eq!(record.args[0], Argument::ArcisPubkey(session_key));
    assert_eq!(record.args[1], Argument::PlaintextU128(555));
    assert_eq!(record.args[2], Argument::EncryptedBool(ciphertext));
    assert_eq!(record.args[3], Argument::PlaintextU128(77));
    match record.args[4] {
        Argument::Account(_, offset, len) => {
            assert_eq!(offset, 9);
            assert_eq!(len, 224);
        }
        other => panic!("expected a byte-range reference, got {:?}", other),
    }
}

#[test]
fn unauthorized_reveal_is_rejected_before_queueing() {
    let authority = key(1);
    let intruder = key(2);
    let (mut queue, poll) = fresh_poll(authority, 77);
    let r = reveal_result_handler(&mut queue, &poll, 2, 42, intruder);
    assert_eq!(r, Err(ErrorCode::InvalidAuthority));
    // Zero job creation: the offset is still free.
    assert_eq!(queue.status_of(2), None);
    // And the authority can still use it.
    reveal_result_handler(&mut queue, &poll, 2, 42, authority)
        .expect("the authority's request must be accepted");
    assert_eq!(queue.status_of(2), Some(ComputationStatus::Queued));
    let record = queue.get(2).unwrap();
    assert_eq!(record.circuit, CircuitKind::RevealResult);
    assert_eq!(record.args[0], Argument::PlaintextU128(77));
    assert!(record.callback_accounts.is_empty());
}

#[test]
fn init_callback_writes_first_snapshot() {
    let authority = key(1);
    let (_, mut poll) = fresh_poll(authority, 77);
    let update = EncryptedTallyUpdate {
        target_nonce: 77,
        ciphertexts: slots(3),
        new_nonce: 78,
    };
    let r = init_vote_stats_callback_handler(&mut poll, ComputationOutputs::Success(update));
    assert_eq!(r, Ok(()));
    assert_eq!(poll.vote_state, slots(3));
    assert_eq!(poll.nonce, 78);
}

#[test]
fn tally_callback_applies_matching_output_and_reports_the_time() {
    let authority = key(1);
    let (_, mut poll) = fresh_poll(authority, 77);
    let update = EncryptedTallyUpdate {
        target_nonce: 77,
        ciphertexts: slots(4),
        new_nonce: 100,
    };
    let r = vote_callback_handler(&mut poll, ComputationOutputs::Success(update), 1_700_000_000);
    assert_eq!(r, Ok(VoteEvent { timestamp: 1_700_000_000 }));
    assert_eq!(poll.vote_state, slots(4));
    assert_eq!(poll.nonce, 100);
}

#[test]
fn stale_nonce_leaves_poll_unchanged() {
    let authority = key(1);
    let (_, mut poll) = fresh_poll(authority, 77);
    let before = poll;
    let stale = EncryptedTallyUpdate {
        target_nonce: 76,
        ciphertexts: slots(5),
        new_nonce: 101,
    };
    let r = vote_callback_handler(&mut poll, ComputationOutputs::Success(stale), 0);
    assert_eq!(r, Err(ErrorCode::NonceMismatch));
    assert_eq!(poll, before);
}

#[test]
fn replayed_output_cannot_double_apply() {
    let authority = key(1);
    let (_, mut poll) = fresh_poll(authority, 77);
    let update = EncryptedTallyUpdate {
        target_nonce: 77,
        ciphertexts: slots(6),
        new_nonce: 200,
    };
    vote_callback_handler(&mut poll, ComputationOutputs::Success(update), 1).unwrap();
    let applied_once = poll;
    let r = vote_callback_handler(&mut poll, ComputationOutputs::Success(update), 2);
    assert_eq!(r, Err(ErrorCode::NonceMismatch));
    assert_eq!(poll, applied_once);
}

#[test]
fn aborted_computation_is_terminal_and_mutates_nothing() {
    let authority = key(1);
    let (_, mut poll) = fresh_poll(authority, 77);
    let before = poll;
    let r = vote_callback_handler(&mut poll, ComputationOutputs::Abort, 0);
    assert_eq!(r, Err(ErrorCode::AbortedComputation));
    assert_eq!(poll, before);

    let r = init_vote_stats_callback_handler(&mut poll, ComputationOutputs::Abort);
    assert_eq!(r, Err(ErrorCode::AbortedComputation));
    assert_eq!(poll, before);

    let r = reveal_result_callback_handler(ComputationOutputs::Abort);
    assert_eq!(r, Err(ErrorCode::AbortedComputation));
}

#[test]
fn reveal_callback_emits_the_disclosed_aggregate() {
    let r = reveal_result_callback_handler(ComputationOutputs::Success(Ok(
        RevealedAggregate::Median(2),
    )));
    assert_eq!(r, Ok(RevealResultEvent { output: RevealedAggregate::Median(2) }));

    let r = reveal_result_callback_handler(ComputationOutputs::Success(Ok(
        RevealedAggregate::Counts([1, 0, 0, 0, 0, 0, 0]),
    )));
    assert_eq!(
        r,
        Ok(RevealResultEvent { output: RevealedAggregate::Counts([1, 0, 0, 0, 0, 0, 0]) })
    );

    let r = reveal_result_callback_handler(ComputationOutputs::Success(Err(
        ErrorCode::NoRevealedVotes,
    )));
    assert_eq!(r, Err(ErrorCode::NoRevealedVotes));
}

#[test]
fn queued_computation_resolves_exactly_once() {
    let authority = key(1);
    let (mut queue, _) = fresh_poll(authority, 77);
    assert_eq!(queue.status_of(1), Some(ComputationStatus::Queued));

    let kind = queue.deliver(1, true).expect("a queued record must accept its result");
    assert_eq!(kind, CircuitKind::InitVoteStats);
    assert_eq!(queue.status_of(1), Some(ComputationStatus::Applied));

    // A second completion notice for the same record is rejected.
    assert_eq!(queue.deliver(1, true), Err(ErrorCode::UnknownComputation));
    // So is a notice for an offset never queued.
    assert_eq!(queue.deliver(9, true), Err(ErrorCode::UnknownComputation));
}

#[test]
fn aborted_delivery_marks_the_record_aborted() {
    let authority = key(1);
    let (mut queue, poll) = fresh_poll(authority, 77);
    vote_handler(&mut queue, &poll, 2, 42, [0; 32], [0; 32], 1, key(2)).unwrap();
    let kind = queue.deliver(2, false).unwrap();
    assert_eq!(kind, CircuitKind::Vote);
    assert_eq!(queue.status_of(2), Some(ComputationStatus::Aborted));
    assert_eq!(queue.deliver(2, false), Err(ErrorCode::UnknownComputation));
}

#[test]
fn circuit_names_are_their_registered_spellings() {
    assert_eq!(CircuitKind::InitVoteStats.name_bytes(), b"init_vote_stats".to_vec());
    assert_eq!(CircuitKind::Vote.name_bytes(), b"vote".to_vec());
    assert_eq!(CircuitKind::RevealResult.name_bytes(), b"reveal_result".to_vec());
}

#[test]
fn circuit_definitions_register_once() {
    let mut registry = CircuitRegistry::new();
    init_vote_stats_comp_def_handle(&mut registry).expect("first registration succeeds");
    init_vote_comp_def_handler(&mut registry).expect("first registration succeeds");
    init_reveal_result_comp_def_handler(&mut registry).expect("first registration succeeds");

    assert_eq!(
        init_vote_stats_comp_def_handle(&mut registry),
        Err(ErrorCode::OffsetInUse)
    );
    assert_eq!(init_vote_comp_def_handler(&mut registry), Err(ErrorCode::OffsetInUse));
    assert_eq!(
        init_reveal_result_comp_def_handler(&mut registry),
        Err(ErrorCode::OffsetInUse)
    );
}
