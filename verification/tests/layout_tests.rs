use sha2::Digest;

use confidential_poll::addresses::comp_def_offset;
use confidential_poll::addresses::derive_companion_refs;
use confidential_poll::addresses::derive_poll_address;
use confidential_poll::addresses::poll_discriminator_bytes;
use confidential_poll::poll_state::PollAccount;
use confidential_poll::poll_state::Pubkey;
use confidential_poll::poll_state::CIPHERTEXT_REGION_BYTES;
use confidential_poll::poll_state::CIPHERTEXT_REGION_OFFSET;
use confidential_poll::poll_state::POLL_ACCOUNT_BYTES;

fn sample_poll() -> PollAccount {
    let mut vote_state = [[0u8; 32]; 7];
    for (i, slot) in vote_state.iter_mut().enumerate() {
        for (j, byte) in slot.iter_mut().enumerate() {
            *byte = (i * 32 + j) as u8;
        }
    }
    PollAccount {
        layout_version: 1,
        vote_state,
        id: 0x01020304,
        authority: Pubkey::new([0xAA; 32]),
        nonce: 0x0102030405060708090A0B0C0D0E0F10,
        price: 0x1122334455667788,
        mint0: Pubkey::new([0xBB; 32]),
        mint1: Pubkey::new([0xCC; 32]),
    }
}

#[test]
fn pubkey_equality_is_byte_wise() {
    let a = Pubkey::new([7; 32]);
    let b = Pubkey::new([7; 32]);
    let mut c_bytes = [7u8; 32];
    c_bytes[31] = 8;
    let c = Pubkey::new(c_bytes);
    assert!(a.equals(&b));
    assert!(!a.equals(&c));
}

#[test]
fn ciphertext_region_is_the_slots_in_bucket_order() {
    let poll = sample_poll();
    let region = poll.ciphertext_region();
    assert_eq!(region.len(), CIPHERTEXT_REGION_BYTES);
    let expected: Vec<u8> = (0..224).map(|i| i as u8).collect();
    assert_eq!(region, expected);
}

#[test]
fn persisted_layout_pins_every_field_offset() {
    let poll = sample_poll();
    let bytes = poll.to_bytes();
    assert_eq!(bytes.len(), POLL_ACCOUNT_BYTES);

    // Discriminator: first eight digest bytes of "account:PollAccount".
    let digest = sha2::Sha256::digest(b"account:PollAccount");
    assert_eq!(&bytes[0..8], &digest[0..8]);

    // Layout-version byte sits between the discriminator and the region.
    assert_eq!(bytes[8], 1);

    // The ciphertext region spans exactly the advertised byte range.
    let region = poll.ciphertext_region();
    assert_eq!(
        &bytes[CIPHERTEXT_REGION_OFFSET..CIPHERTEXT_REGION_OFFSET + CIPHERTEXT_REGION_BYTES],
        region.as_slice()
    );

    // Metadata fields, little-endian, at their fixed offsets.
    assert_eq!(&bytes[233..237], &0x01020304u32.to_le_bytes());
    assert_eq!(&bytes[237..269], &[0xAA; 32]);
    assert_eq!(
        &bytes[269..285],
        &0x0102030405060708090A0B0C0D0E0F10u128.to_le_bytes()
    );
    assert_eq!(&bytes[285..293], &0x1122334455667788u64.to_le_bytes());
    assert_eq!(&bytes[293..325], &[0xBB; 32]);
    assert_eq!(&bytes[325..357], &[0xCC; 32]);
}

#[test]
fn parsing_a_serialised_record_round_trips() {
    let poll = sample_poll();
    let bytes = poll.to_bytes();
    let parsed = PollAccount::from_bytes(&bytes).expect("a well-formed image parses");
    assert_eq!(parsed, poll);
}

#[test]
fn malformed_images_are_rejected() {
    let poll = sample_poll();
    let bytes = poll.to_bytes();

    // Too short or too long.
    assert!(PollAccount::from_bytes(&bytes[1..]).is_none());
    let mut long = bytes.clone();
    long.push(0);
    assert!(PollAccount::from_bytes(&long).is_none());

    // A wrong discriminator marks a foreign record.
    let mut foreign = bytes.clone();
    foreign[0] ^= 0xFF;
    assert!(PollAccount::from_bytes(&foreign).is_none());
}

#[test]
fn discriminator_comes_from_the_real_digest() {
    let disc = poll_discriminator_bytes();
    let digest = sha2::Sha256::digest(b"account:PollAccount");
    assert_eq!(disc.as_slice(), &digest[0..8]);
}

#[test]
fn poll_address_is_the_digest_of_its_seeds() {
    let authority = Pubkey::new([5; 32]);
    let id: u32 = 42;
    let addr = derive_poll_address(&authority, id);

    let mut seed = Vec::new();
    seed.extend_from_slice(b"poll");
    seed.extend_from_slice(&[5; 32]);
    seed.extend_from_slice(&id.to_le_bytes());
    let digest = sha2::Sha256::digest(&seed);
    assert_eq!(addr.bytes.as_slice(), digest.as_slice());

    // A different creator or id lands on a different address.
    let other = derive_poll_address(&Pubkey::new([6; 32]), id);
    assert_ne!(addr.bytes, other.bytes);
    let other = derive_poll_address(&authority, 43);
    assert_ne!(addr.bytes, other.bytes);
}

#[test]
fn companion_refs_are_derived_from_their_seeds() {
    let payer = Pubkey::new([9; 32]);
    let refs = derive_companion_refs(&payer, 7);

    let expect = |seed: &[u8]| -> [u8; 32] { sha2::Sha256::digest(seed).into() };
    assert_eq!(refs.mempool.bytes, expect(b"mempool"));
    assert_eq!(refs.execpool.bytes, expect(b"execpool"));
    assert_eq!(refs.fee_pool.bytes, expect(b"fee_pool"));
    assert_eq!(refs.clock.bytes, expect(b"clock"));

    let mut sign_seed = Vec::new();
    sign_seed.extend_from_slice(b"sign");
    sign_seed.extend_from_slice(&[9; 32]);
    assert_eq!(refs.sign_pda.bytes, expect(&sign_seed));

    let mut comp_seed = Vec::new();
    comp_seed.extend_from_slice(b"computation");
    comp_seed.extend_from_slice(&7u64.to_le_bytes());
    assert_eq!(refs.computation.bytes, expect(&comp_seed));

    // The computation reference is keyed by the offset.
    let refs2 = derive_companion_refs(&payer, 8);
    assert_ne!(refs.computation.bytes, refs2.computation.bytes);
    assert_eq!(refs.mempool.bytes, refs2.mempool.bytes);
}

#[test]
fn comp_def_offsets_come_from_the_circuit_names() {
    let vote_offset = comp_def_offset(&b"vote".to_vec());
    let digest = sha2::Sha256::digest(b"vote");
    let expected = u32::from_le_bytes([digest[0], digest[1], digest[2], digest[3]]);
    assert_eq!(vote_offset, expected);

    let other = comp_def_offset(&b"reveal_result".to_vec());
    assert_ne!(vote_offset, other);
}
