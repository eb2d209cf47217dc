//! Persistent poll state and its on-ledger byte layout.
//!
//! The external cluster addresses the encrypted counters by byte range, not
//! by field name, so the exact offset and width of the ciphertext region are
//! part of the protocol and are pinned down here.

use vstd::prelude::*;

use crate::addresses::poll_discriminator;
use crate::circuits::NUM_BUCKETS;

verus! {

/// A 32-byte ledger account identity.
#[derive(Clone, Copy, Debug, PartialEq, Eq)]
pub struct Pubkey {
    pub bytes: [u8; 32],
}

impl View for Pubkey {
    type V = Seq<u8>;

    open spec fn view(&self) -> Seq<u8> {
        self.bytes@
    }
}

impl Pubkey {
    pub fn new(bytes: [u8; 32]) -> (r: Pubkey)
        ensures
            r@ == bytes@,
    {
        Pubkey { bytes }
    }

    /// Byte-wise identity comparison.
    pub fn equals(&self, other: &Pubkey) -> (r: bool)
        ensures
            r <==> self@ == other@,
    {
        let mut i: usize = 0;
        while i < 32
            invariant
                i <= 32,
                forall|j: int| 0 <= j < i ==> self.bytes@[j] == other.bytes@[j],
            decreases 32 - i,
        {
            if self.bytes[i] != other.bytes[i] {
                return false;
            }
            i = i + 1;
        }
        proof {
            assert(self.bytes@ =~= other.bytes@);
        }
        true
    }
}

/// Width of the persisted record's discriminator prefix.
pub const DISCRIMINATOR_BYTES: usize = 8;

/// Width of one encrypted counter slot.
pub const CIPHERTEXT_SLOT_BYTES: usize = 32;

/// Fixed byte offset where the ciphertext region starts: the discriminator
/// plus the layout-version byte.  The cluster addresses the region by this
/// offset, so it must never move.
pub const CIPHERTEXT_REGION_OFFSET: usize = 9;

/// Total width of the ciphertext region: one fixed-width slot per bucket.
pub const CIPHERTEXT_REGION_BYTES: usize = 224;

/// Byte offsets of the remaining fields of the persisted record.
pub const ID_OFFSET: usize = 233;

pub const AUTHORITY_OFFSET: usize = 237;

pub const NONCE_OFFSET: usize = 269;

pub const PRICE_OFFSET: usize = 285;

pub const MINT0_OFFSET: usize = 293;

pub const MINT1_OFFSET: usize = 325;

/// Total persisted size of a poll record.
pub const POLL_ACCOUNT_BYTES: usize = 357;

/// The current layout version, written right after the discriminator.
pub const LAYOUT_VERSION: u8 = 1;

/// Persistent record of one poll: encrypted tally slots and metadata.  It is
/// created once and mutated only by applying a successful computation
/// callback, never directly by a client.
#[derive(Clone, Copy, Debug, PartialEq, Eq)]
pub struct PollAccount {
    /// Layout-version byte; sits between the discriminator and the
    /// ciphertext region.
    pub layout_version: u8,
    /// Encrypted bucket counters, one fixed-width ciphertext per bucket.
    pub vote_state: [[u8; 32]; 7],
    /// Unique identifier of this poll.
    pub id: u32,
    /// Identity of the poll creator; only it may reveal the result.
    pub authority: Pubkey,
    /// Freshness token coupling the current ciphertext snapshot to the one
    /// computation allowed to overwrite it.
    pub nonce: u128,
    /// Price metadata attached to the poll.
    pub price: u64,
    pub mint0: Pubkey,
    pub mint1: Pubkey,
}

/// Concatenation of the first `n` ciphertext slots.
pub open spec fn concat_slots(slots: Seq<[u8; 32]>, n: int) -> Seq<u8>
    decreases n,
{
    if n <= 0 {
        Seq::empty()
    } else {
        concat_slots(slots, n - 1) + slots[n - 1]@
    }
}

/// The first `n` slots concatenate to `n` times the slot width.
pub proof fn lemma_concat_slots_len(slots: Seq<[u8; 32]>, n: int)
    requires
        0 <= n <= slots.len(),
    ensures
        concat_slots(slots, n).len() == n * CIPHERTEXT_SLOT_BYTES,
    decreases n,
{
    if n > 0 {
        lemma_concat_slots_len(slots, n - 1);
    }
}

/// Slot `k` occupies exactly its own 32-byte range of the concatenation —
/// the range under which the cluster addresses it.
pub proof fn lemma_concat_slots_slot(slots: Seq<[u8; 32]>, n: int, k: int)
    requires
        0 <= k < n <= slots.len(),
    ensures
        concat_slots(slots, n).subrange(32 * k, 32 * k + 32) == slots[k]@,
    decreases n,
{
    lemma_concat_slots_len(slots, n);
    lemma_concat_slots_len(slots, n - 1);
    if k == n - 1 {
        assert(concat_slots(slots, n).subrange(32 * k, 32 * k + 32) =~= slots[k]@);
    } else {
        lemma_concat_slots_slot(slots, n - 1, k);
        assert(concat_slots(slots, n).subrange(32 * k, 32 * k + 32) =~= concat_slots(
            slots,
            n - 1,
        ).subrange(32 * k, 32 * k + 32));
    }
}

/// If every slot matches its own 32-byte range of `bytes` starting at `off`,
/// the concatenation matches the whole run.
pub proof fn lemma_concat_slots_of_ranges(slots: Seq<[u8; 32]>, bytes: Seq<u8>, off: int, n: int)
    requires
        0 <= n <= slots.len(),
        0 <= off,
        off + 32 * n <= bytes.len(),
        forall|k: int|
            0 <= k < n ==> slots[k]@ == bytes.subrange(off + 32 * k, off + 32 * k + 32),
    ensures
        concat_slots(slots, n) == bytes.subrange(off, off + 32 * n),
    decreases n,
{
    if n > 0 {
        lemma_concat_slots_of_ranges(slots, bytes, off, n - 1);
        lemma_concat_slots_len(slots, n - 1);
        assert(concat_slots(slots, n) =~= bytes.subrange(off, off + 32 * n));
    }
}

impl PollAccount {
    /// The ciphertext region as the cluster reads it: all slots in bucket
    /// order.
    pub open spec fn ciphertext_region_spec(self) -> Seq<u8> {
        concat_slots(self.vote_state@, NUM_BUCKETS as int)
    }

    /// Copies the ciphertext region out of the record.
    pub fn ciphertext_region(&self) -> (r: Vec<u8>)
        ensures
            r@ == self.ciphertext_region_spec(),
            r@.len() == CIPHERTEXT_REGION_BYTES,
    {
        let mut out: Vec<u8> = Vec::new();
        let mut i: usize = 0;
        while i < NUM_BUCKETS
            invariant
                i <= NUM_BUCKETS,
                out@ == concat_slots(self.vote_state@, i as int),
            decreases NUM_BUCKETS - i,
        {
            out.extend_from_slice(self.vote_state[i].as_slice());
            i = i + 1;
        }
        proof {
            lemma_concat_slots_len(self.vote_state@, NUM_BUCKETS as int);
        }
        out
    }

    /// `bytes` is exactly this record's persisted image: discriminator,
    /// layout-version byte, ciphertext region, then the metadata fields, all
    /// integers little-endian, each at its fixed offset.
    pub open spec fn serialized(self, bytes: Seq<u8>) -> bool {
        &&& bytes.len() == POLL_ACCOUNT_BYTES
        &&& bytes.subrange(0, DISCRIMINATOR_BYTES as int) == poll_discriminator()
        &&& bytes[DISCRIMINATOR_BYTES as int] == self.layout_version
        &&& bytes.subrange(CIPHERTEXT_REGION_OFFSET as int, ID_OFFSET as int)
            == self.ciphertext_region_spec()
        &&& bytes.subrange(ID_OFFSET as int, AUTHORITY_OFFSET as int)
            == vstd::bytes::spec_u32_to_le_bytes(self.id)
        &&& bytes.subrange(AUTHORITY_OFFSET as int, NONCE_OFFSET as int) == self.authority@
        &&& bytes.subrange(NONCE_OFFSET as int, PRICE_OFFSET as int)
            == vstd::bytes::spec_u128_to_le_bytes(self.nonce)
        &&& bytes.subrange(PRICE_OFFSET as int, MINT0_OFFSET as int)
            == vstd::bytes::spec_u64_to_le_bytes(self.price)
        &&& bytes.subrange(MINT0_OFFSET as int, MINT1_OFFSET as int) == self.mint0@
        &&& bytes.subrange(MINT1_OFFSET as int, POLL_ACCOUNT_BYTES as int) == self.mint1@
    }

    /// Serialises the record to its persisted layout.
    pub fn to_bytes(&self) -> (r: Vec<u8>)
        ensures
            self.serialized(r@),
    {
        let mut out: Vec<u8> = Vec::new();
        let disc = crate::addresses::poll_discriminator_bytes();
        out.extend_from_slice(disc.as_slice());
        out.push(self.layout_version);
        let region = self.ciphertext_region();
        out.extend_from_slice(region.as_slice());
        let id_bytes = vstd::bytes::u32_to_le_bytes(self.id);
        out.extend_from_slice(id_bytes.as_slice());
        out.extend_from_slice(self.authority.bytes.as_slice());
        let nonce_bytes = vstd::bytes::u128_to_le_bytes(self.nonce);
        out.extend_from_slice(nonce_bytes.as_slice());
        let price_bytes = vstd::bytes::u64_to_le_bytes(self.price);
        out.extend_from_slice(price_bytes.as_slice());
        out.extend_from_slice(self.mint0.bytes.as_slice());
        out.extend_from_slice(self.mint1.bytes.as_slice());
        proof {
            assert(out@.subrange(0, DISCRIMINATOR_BYTES as int) =~= poll_discriminator());
            assert(out@.subrange(CIPHERTEXT_REGION_OFFSET as int, ID_OFFSET as int)
                =~= self.ciphertext_region_spec());
            assert(out@.subrange(ID_OFFSET as int, AUTHORITY_OFFSET as int)
                =~= vstd::bytes::spec_u32_to_le_bytes(self.id));
            assert(out@.subrange(AUTHORITY_OFFSET as int, NONCE_OFFSET as int)
                =~= self.authority@);
            assert(out@.subrange(NONCE_OFFSET as int, PRICE_OFFSET as int)
                =~= vstd::bytes::spec_u128_to_le_bytes(self.nonce));
            assert(out@.subrange(PRICE_OFFSET as int, MINT0_OFFSET as int)
                =~= vstd::bytes::spec_u64_to_le_bytes(self.price));
            assert(out@.subrange(MINT0_OFFSET as int, MINT1_OFFSET as int) =~= self.mint0@);
            assert(out@.subrange(MINT1_OFFSET as int, POLL_ACCOUNT_BYTES as int)
                =~= self.mint1@);
        }
        out
    }

    /// Parses a persisted image back into a record.  Exactly the byte
    /// sequences of the right length that start with the poll discriminator
    /// parse, and what parses is precisely the record whose image the bytes
    /// are.
    pub fn from_bytes(bytes: &[u8]) -> (r: Option<PollAccount>)
        ensures
            r is Some <==> bytes@.len() == POLL_ACCOUNT_BYTES && bytes@.subrange(
                0,
                DISCRIMINATOR_BYTES as int,
            ) == poll_discriminator(),
            r matches Some(p) ==> p.serialized(bytes@),
    {
        if bytes.len() != POLL_ACCOUNT_BYTES {
            return None;
        }
        let disc = crate::addresses::poll_discriminator_bytes();
        let mut i: usize = 0;
        while i < DISCRIMINATOR_BYTES
            invariant
                i <= DISCRIMINATOR_BYTES,
                bytes@.len() == POLL_ACCOUNT_BYTES,
                disc@ == poll_discriminator(),
                disc@.len() == DISCRIMINATOR_BYTES,
                forall|j: int| 0 <= j < i ==> bytes@[j] == disc@[j],
            decreases DISCRIMINATOR_BYTES - i,
        {
            if bytes[i] != disc[i] {
                proof {
                    assert(bytes@.subrange(0, DISCRIMINATOR_BYTES as int)[i as int]
                        != poll_discriminator()[i as int]);
                }
                return None;
            }
            i = i + 1;
        }
        proof {
            assert(bytes@.subrange(0, DISCRIMINATOR_BYTES as int) =~= poll_discriminator());
        }

        let layout_version = bytes[DISCRIMINATOR_BYTES];

        let mut vote_state: [[u8; 32]; 7] = [[0u8; 32]; 7];
        let mut k: usize = 0;
        while k < NUM_BUCKETS
            invariant
                k <= NUM_BUCKETS,
                bytes@.len() == POLL_ACCOUNT_BYTES,
                forall|m: int|
                    0 <= m < k ==> vote_state@[m]@ == bytes@.subrange(
                        CIPHERTEXT_REGION_OFFSET + 32 * m,
                        CIPHERTEXT_REGION_OFFSET + 32 * m + 32,
                    ),
            decreases NUM_BUCKETS - k,
        {
            let slot = read_bytes32(bytes, CIPHERTEXT_REGION_OFFSET + 32 * k);
            vote_state[k] = slot;
            k = k + 1;
        }

        let id = vstd::bytes::u32_from_le_bytes(
            vstd::slice::slice_subrange(bytes, ID_OFFSET, AUTHORITY_OFFSET),
        );
        let authority = Pubkey { bytes: read_bytes32(bytes, AUTHORITY_OFFSET) };
        let nonce = vstd::bytes::u128_from_le_bytes(
            vstd::slice::slice_subrange(bytes, NONCE_OFFSET, PRICE_OFFSET),
        );
        let price = vstd::bytes::u64_from_le_bytes(
            vstd::slice::slice_subrange(bytes, PRICE_OFFSET, MINT0_OFFSET),
        );
        let mint0 = Pubkey { bytes: read_bytes32(bytes, MINT0_OFFSET) };
        let mint1 = Pubkey { bytes: read_bytes32(bytes, MINT1_OFFSET) };

        let p = PollAccount {
            layout_version,
            vote_state,
            id,
            authority,
            nonce,
            price,
            mint0,
            mint1,
        };

        proof {
            lemma_concat_slots_of_ranges(
                p.vote_state@,
                bytes@,
                CIPHERTEXT_REGION_OFFSET as int,
                NUM_BUCKETS as int,
            );
            vstd::bytes::lemma_auto_spec_u32_to_from_le_bytes();
            vstd::bytes::lemma_auto_spec_u64_to_from_le_bytes();
            vstd::bytes::lemma_auto_spec_u128_to_from_le_bytes();
        }
        Some(p)
    }
}

/// Copies the 32 bytes of `bytes` starting at `off` into an array.
fn read_bytes32(bytes: &[u8], off: usize) -> (r: [u8; 32])
    requires
        off + 32 <= bytes@.len(),
    ensures
        r@ == bytes@.subrange(off as int, off + 32),
{
    let n = bytes.len();
    let mut r: [u8; 32] = [0u8; 32];
    let mut j: usize = 0;
    while j < 32
        invariant
            j <= 32,
            off + 32 <= n == bytes@.len(),
            forall|l: int| 0 <= l < j ==> r@[l] == bytes@[off + l],
        decreases 32 - j,
    {
        r[j] = bytes[off + j];
        j = j + 1;
    }
    proof {
        assert(r@ =~= bytes@.subrange(off as int, off + 32));
    }
    r
}

/// One byte image, one record: two records with the same persisted image are
/// the same record, so the layout loses nothing.
pub proof fn lemma_serialized_determines_record(p1: PollAccount, p2: PollAccount, bytes: Seq<u8>)
    requires
        p1.serialized(bytes),
        p2.serialized(bytes),
    ensures
        p1 == p2,
{
    broadcast use vstd::array::group_array_axioms;

    vstd::bytes::lemma_auto_spec_u32_to_from_le_bytes();
    vstd::bytes::lemma_auto_spec_u64_to_from_le_bytes();
    vstd::bytes::lemma_auto_spec_u128_to_from_le_bytes();

    assert forall|k: int| 0 <= k < NUM_BUCKETS implies p1.vote_state@[k] == p2.vote_state@[k] by {
        lemma_concat_slots_slot(p1.vote_state@, NUM_BUCKETS as int, k);
        lemma_concat_slots_slot(p2.vote_state@, NUM_BUCKETS as int, k);
        assert(p1.vote_state@[k]@ =~= p2.vote_state@[k]@);
        assert(p1.vote_state@[k] =~= p2.vote_state@[k]);
    }
    assert(p1.vote_state =~= p2.vote_state);
    assert(p1.authority.bytes =~= p2.authority.bytes);
    assert(p1.mint0.bytes =~= p2.mint0.bytes);
    assert(p1.mint1.bytes =~= p2.mint1.bytes);
    assert(vstd::bytes::spec_u32_to_le_bytes(p1.id).len() == 4);
    assert(vstd::bytes::spec_u32_to_le_bytes(p2.id).len() == 4);
    assert(p1.id == vstd::bytes::spec_u32_from_le_bytes(vstd::bytes::spec_u32_to_le_bytes(p1.id)));
    assert(p2.id == vstd::bytes::spec_u32_from_le_bytes(vstd::bytes::spec_u32_to_le_bytes(p2.id)));
    assert(vstd::bytes::spec_u128_to_le_bytes(p1.nonce).len() == 16);
    assert(vstd::bytes::spec_u128_to_le_bytes(p2.nonce).len() == 16);
    assert(p1.nonce == vstd::bytes::spec_u128_from_le_bytes(vstd::bytes::spec_u128_to_le_bytes(
        p1.nonce,
    )));
    assert(p2.nonce == vstd::bytes::spec_u128_from_le_bytes(vstd::bytes::spec_u128_to_le_bytes(
        p2.nonce,
    )));
}

} // verus!
