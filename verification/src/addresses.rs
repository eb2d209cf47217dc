//! Deterministic derivation of account references and circuit-definition
//! offsets.
//!
//! Every companion reference the external cluster needs — work queue,
//! execution pool, fee pool, clock, per-payer signer tracking, and the
//! computation record keyed by the caller-chosen offset — is derived from
//! fixed seed bytes with SHA-256, so both sides of the protocol agree on
//! them without coordination.

use sha2::Digest;
use vstd::prelude::*;

use crate::poll_state::Pubkey;

verus! {

/// The SHA-256 digest of a byte sequence, as the `sha2` crate computes it.
pub uninterp spec fn sha256_of(bytes: Seq<u8>) -> Seq<u8>;

/// Relies on `sha2::Sha256::digest`: the 32-byte digest is a function of the
/// input bytes alone.
#[verifier::external_body]
fn sha256(bytes: &[u8]) -> (r: [u8; 32])
    ensures
        r@ == sha256_of(bytes@),
{
    sha2::Sha256::digest(bytes).into()
}

/// Seed tag of a poll record: the bytes of "poll".
pub open spec fn poll_tag() -> Seq<u8> {
    seq![112u8, 111u8, 108u8, 108u8]
}

/// Seed tag of the cluster's work queue: the bytes of "mempool".
pub open spec fn mempool_tag() -> Seq<u8> {
    seq![109u8, 101u8, 109u8, 112u8, 111u8, 111u8, 108u8]
}

/// Seed tag of the cluster's execution pool: the bytes of "execpool".
pub open spec fn execpool_tag() -> Seq<u8> {
    seq![101u8, 120u8, 101u8, 99u8, 112u8, 111u8, 111u8, 108u8]
}

/// Seed tag of the fee/accounting record: the bytes of "fee_pool".
pub open spec fn fee_pool_tag() -> Seq<u8> {
    seq![102u8, 101u8, 101u8, 95u8, 112u8, 111u8, 111u8, 108u8]
}

/// Seed tag of the clock record: the bytes of "clock".
pub open spec fn clock_tag() -> Seq<u8> {
    seq![99u8, 108u8, 111u8, 99u8, 107u8]
}

/// Seed tag of the per-payer signer-tracking record: the bytes of "sign".
pub open spec fn sign_tag() -> Seq<u8> {
    seq![115u8, 105u8, 103u8, 110u8]
}

/// Seed tag of a computation-tracking record: the bytes of "computation".
pub open spec fn computation_tag() -> Seq<u8> {
    seq![99u8, 111u8, 109u8, 112u8, 117u8, 116u8, 97u8, 116u8, 105u8, 111u8, 110u8]
}

/// Seed tag of a circuit-definition record: the bytes of "comp_def".
pub open spec fn comp_def_tag() -> Seq<u8> {
    seq![99u8, 111u8, 109u8, 112u8, 95u8, 100u8, 101u8, 102u8]
}

/// Discriminator preimage of the poll record: the bytes of
/// "account:PollAccount".
pub open spec fn poll_discriminator_preimage() -> Seq<u8> {
    seq![
        97u8, 99u8, 99u8, 111u8, 117u8, 110u8, 116u8, 58u8, 80u8, 111u8, 108u8, 108u8, 65u8,
        99u8, 99u8, 111u8, 117u8, 110u8, 116u8,
    ]
}

/// The 8-byte discriminator that prefixes every persisted poll record.
pub open spec fn poll_discriminator() -> Seq<u8> {
    sha256_of(poll_discriminator_preimage()).take(8)
}

/// The address of the poll record created by `authority` under `id`.
pub open spec fn poll_address(authority: Seq<u8>, id: u32) -> Seq<u8> {
    sha256_of(poll_tag() + authority + vstd::bytes::spec_u32_to_le_bytes(id))
}

/// The offset under which a circuit definition is registered: the first four
/// digest bytes of its name, read little-endian.
pub open spec fn comp_def_offset_spec(name: Seq<u8>) -> u32 {
    vstd::bytes::spec_u32_from_le_bytes(sha256_of(name).take(4))
}

/// The deterministic companion references for one queued computation, all
/// derived from fixed seeds: `r` carries the work-queue, execution-pool,
/// fee, clock, per-payer signer-tracking and computation-tracking
/// references.
pub open spec fn refs_derived(r: CompanionRefs, payer: Seq<u8>, offset: u64) -> bool {
    &&& r.mempool@ == sha256_of(mempool_tag())
    &&& r.execpool@ == sha256_of(execpool_tag())
    &&& r.fee_pool@ == sha256_of(fee_pool_tag())
    &&& r.clock@ == sha256_of(clock_tag())
    &&& r.sign_pda@ == sha256_of(sign_tag() + payer)
    &&& r.computation@ == sha256_of(
        computation_tag() + vstd::bytes::spec_u64_to_le_bytes(offset),
    )
}

/// The companion references the external cluster needs to pick up and settle
/// one queued computation.
#[derive(Clone, Copy, Debug, PartialEq, Eq)]
pub struct CompanionRefs {
    /// Work-queue (mempool) reference.
    pub mempool: Pubkey,
    /// Execution-pool reference.
    pub execpool: Pubkey,
    /// Fee/accounting reference.
    pub fee_pool: Pubkey,
    /// Clock reference.
    pub clock: Pubkey,
    /// Per-payer signer-tracking reference.
    pub sign_pda: Pubkey,
    /// Computation-tracking reference, keyed by the caller-chosen offset.
    pub computation: Pubkey,
}

/// Derives the address of a record from its seed bytes.
fn derive_address(seed: &Vec<u8>) -> (r: Pubkey)
    ensures
        r@ == sha256_of(seed@),
{
    Pubkey { bytes: sha256(seed.as_slice()) }
}

/// Builds the poll-tag seed bytes.
fn poll_tag_bytes() -> (r: Vec<u8>)
    ensures
        r@ == poll_tag(),
{
    let tag: [u8; 4] = [112, 111, 108, 108];
    let r = vstd::slice::slice_to_vec(tag.as_slice());
    proof {
        assert(r@ =~= poll_tag());
    }
    r
}

/// Derives the address of the poll record created by `authority` under `id`.
pub fn derive_poll_address(authority: &Pubkey, id: u32) -> (r: Pubkey)
    ensures
        r@ == poll_address(authority@, id),
{
    let mut seed = poll_tag_bytes();
    seed.extend_from_slice(authority.bytes.as_slice());
    let id_bytes = vstd::bytes::u32_to_le_bytes(id);
    seed.extend_from_slice(id_bytes.as_slice());
    proof {
        assert(seed@ =~= poll_tag() + authority@ + vstd::bytes::spec_u32_to_le_bytes(id));
    }
    derive_address(&seed)
}

/// Derives the full set of companion references for one computation queued
/// by `payer` under `offset`.
pub fn derive_companion_refs(payer: &Pubkey, offset: u64) -> (r: CompanionRefs)
    ensures
        refs_derived(r, payer@, offset),
{
    let mempool_seed: [u8; 7] = [109, 101, 109, 112, 111, 111, 108];
    let execpool_seed: [u8; 8] = [101, 120, 101, 99, 112, 111, 111, 108];
    let fee_pool_seed: [u8; 8] = [102, 101, 101, 95, 112, 111, 111, 108];
    let clock_seed: [u8; 5] = [99, 108, 111, 99, 107];

    let mut sign_seed: Vec<u8> = vstd::slice::slice_to_vec(
        [115u8, 105u8, 103u8, 110u8].as_slice(),
    );
    sign_seed.extend_from_slice(payer.bytes.as_slice());

    let mut computation_seed: Vec<u8> = vstd::slice::slice_to_vec(
        [99u8, 111u8, 109u8, 112u8, 117u8, 116u8, 97u8, 116u8, 105u8, 111u8, 110u8].as_slice(),
    );
    let offset_bytes = vstd::bytes::u64_to_le_bytes(offset);
    computation_seed.extend_from_slice(offset_bytes.as_slice());

    proof {
        assert(mempool_seed@ =~= mempool_tag());
        assert(execpool_seed@ =~= execpool_tag());
        assert(fee_pool_seed@ =~= fee_pool_tag());
        assert(clock_seed@ =~= clock_tag());
        assert(sign_seed@ =~= sign_tag() + payer@);
        assert(computation_seed@
            =~= computation_tag() + vstd::bytes::spec_u64_to_le_bytes(offset));
    }

    CompanionRefs {
        mempool: Pubkey { bytes: sha256(mempool_seed.as_slice()) },
        execpool: Pubkey { bytes: sha256(execpool_seed.as_slice()) },
        fee_pool: Pubkey { bytes: sha256(fee_pool_seed.as_slice()) },
        clock: Pubkey { bytes: sha256(clock_seed.as_slice()) },
        sign_pda: derive_address(&sign_seed),
        computation: derive_address(&computation_seed),
    }
}

/// Computes the registration offset of a circuit definition from its name.
pub fn comp_def_offset(name: &Vec<u8>) -> (r: u32)
    ensures
        r == comp_def_offset_spec(name@),
{
    let digest = sha256(name.as_slice());
    let head = vstd::slice::slice_subrange(digest.as_slice(), 0, 4);
    proof {
        assert(head@ =~= sha256_of(name@).take(4));
    }
    vstd::bytes::u32_from_le_bytes(head)
}

/// Builds the discriminator preimage bytes.
fn poll_discriminator_preimage_bytes() -> (r: Vec<u8>)
    ensures
        r@ == poll_discriminator_preimage(),
{
    let pre: [u8; 19] = [
        97, 99, 99, 111, 117, 110, 116, 58, 80, 111, 108, 108, 65, 99, 99, 111, 117, 110, 116,
    ];
    let r = vstd::slice::slice_to_vec(pre.as_slice());
    proof {
        assert(r@ =~= poll_discriminator_preimage());
    }
    r
}

/// Computes the 8-byte discriminator of the poll record.
pub fn poll_discriminator_bytes() -> (r: Vec<u8>)
    ensures
        r@ == poll_discriminator(),
        r@.len() == 8,
{
    let pre = poll_discriminator_preimage_bytes();
    let digest = sha256(pre.as_slice());
    let head = vstd::slice::slice_subrange(digest.as_slice(), 0, 8);
    let r = vstd::slice::slice_to_vec(head);
    proof {
        assert(r@ =~= poll_discriminator());
    }
    r
}

} // verus!
