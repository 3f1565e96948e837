//! Core consensus engine: deterministic priority weighting of transactions.
//!
//! The final weight blends four terms, combined with wrapping 64-bit
//! arithmetic so the function is total over its whole input domain:
//! half of a stable hash over every transaction field, an amplified signal
//! term (the scaled signal replicated into eight lanes and reduced by
//! pairwise addition, numerically `signal * 16 * 8`), a large bonus for the
//! reserved override intent, and an externally supplied modifier.

use vstd::prelude::*;
use vstd::string::StrSliceExecFns;

verus! {

/// Fixed amplification applied to the raw signal before lane replication.
pub const SIGNAL_AMPLIFICATION: u64 = 16;

/// Number of logical lanes the amplified signal is replicated into.
pub const SIGNAL_LANES: usize = 8;

/// Additive bonus granted to the reserved override intent; large enough to
/// dominate every combination of non-bonus terms that does not wrap.
pub const RESERVED_INTENT_BONUS: u64 = 9_000_000_000;

/// Offset basis of the 64-bit FNV-1a hash.
pub const FNV_OFFSET_BASIS: u64 = 0xcbf29ce484222325;

/// Multiplicative prime of the 64-bit FNV-1a hash.
pub const FNV_PRIME: u64 = 0x100000001b3;

/// A single sovereign verification transaction: the raw values that are
/// authorized and weighted.
#[derive(Debug, Clone)]
pub struct SovereignVerificationTransaction {
    /// The unique, decentralized identifier of the sender.
    pub did: String,
    /// The raw energy signature value (domain-bounded 0 to 1024).
    pub energy_signature_value: u16,
    /// Protocol intent (for example `"ReadLedger"`, `"ACQUISITION"`,
    /// `"OVERRIDE"`).
    pub intent: String,
    /// Cryptographic time-lock stamp, advisory only.
    pub timestamp_epoch: u64,
}

/// The reserved intent token that earns the fixed priority bonus.
pub open spec fn reserved_override_intent() -> Seq<char> {
    "OVERRIDE"@
}

/// One FNV-1a round: fold a byte into the running hash.
pub open spec fn fnv1a_step(h: u64, byte: u8) -> u64 {
    (h ^ (byte as u64)).wrapping_mul(FNV_PRIME)
}

/// The running FNV-1a hash after absorbing `data`, starting from `init`.
pub open spec fn fnv1a_update(init: u64, data: Seq<u8>) -> u64
    decreases data.len(),
{
    if data.len() == 0 {
        init
    } else {
        fnv1a_step(fnv1a_update(init, data.drop_last()), data.last())
    }
}

/// Little-endian byte sequence of a 16-bit value.
pub open spec fn u16_le_bytes(x: u16) -> Seq<u8> {
    seq![(x % 256) as u8, (x / 256) as u8]
}

/// Little-endian byte sequence of a 64-bit value.
pub open spec fn u64_le_bytes(x: u64) -> Seq<u8> {
    seq![
        (x % 256) as u8,
        ((x / 0x100) % 256) as u8,
        ((x / 0x10000) % 256) as u8,
        ((x / 0x1000000) % 256) as u8,
        ((x / 0x100000000) % 256) as u8,
        ((x / 0x10000000000) % 256) as u8,
        ((x / 0x1000000000000) % 256) as u8,
        ((x / 0x100000000000000) % 256) as u8,
    ]
}

/// The byte encoding of a transaction that the stable hash runs over: the
/// UTF-8 bytes of the identifier and the intent, each closed by `0xFF`
/// (a byte no UTF-8 encoding contains), with the fixed-width fields in
/// little-endian order between them.
pub open spec fn transaction_encoding(
    did: Seq<char>,
    energy: u16,
    intent: Seq<char>,
    timestamp: u64,
) -> Seq<u8> {
    vstd::utf8::encode_utf8(did) + seq![0xFFu8] + u16_le_bytes(energy) + vstd::utf8::encode_utf8(
        intent,
    ) + seq![0xFFu8] + u64_le_bytes(timestamp)
}

/// The stable 64-bit hash over every transaction field: FNV-1a over the
/// transaction's byte encoding. Equal field values hash identically, in
/// every run and process.
pub open spec fn stable_hash(
    did: Seq<char>,
    energy: u16,
    intent: Seq<char>,
    timestamp: u64,
) -> u64 {
    fnv1a_update(FNV_OFFSET_BASIS, transaction_encoding(did, energy, intent, timestamp))
}

/// The final consensus weight: wrapping sum of half the stable hash, the
/// amplified signal, the reserved intent bonus, and the external modifier.
pub open spec fn consensus_weight(
    did: Seq<char>,
    energy: u16,
    intent: Seq<char>,
    timestamp: u64,
    external_modifier: u64,
) -> u64 {
    let integrity_term = stable_hash(did, energy, intent, timestamp) / 2;
    let amplified_term = ((energy as int) * (SIGNAL_AMPLIFICATION as int) * (
    SIGNAL_LANES as int)) as u64;
    let intent_bonus: u64 = if intent == reserved_override_intent() {
        RESERVED_INTENT_BONUS
    } else {
        0
    };
    integrity_term.wrapping_add(amplified_term).wrapping_add(intent_bonus).wrapping_add(
        external_modifier,
    )
}

/// The core structure for executing the consensus weighting algorithm.
pub struct CoreConsensusEngine;

impl CoreConsensusEngine {
    /// Builds the byte encoding of a transaction that the stable hash
    /// absorbs.
    pub fn encode_transaction(svt: &SovereignVerificationTransaction) -> (r: Vec<u8>)
        ensures
            r@ == transaction_encoding(
                svt.did@,
                svt.energy_signature_value,
                svt.intent@,
                svt.timestamp_epoch,
            ),
    {
        let mut out: Vec<u8> = Vec::new();
        let mut did_bytes = svt.did.as_str().as_bytes_vec();
        out.append(&mut did_bytes);
        out.push(0xFF);
        let energy = svt.energy_signature_value;
        out.push((energy % 256) as u8);
        out.push((energy / 256) as u8);
        let mut intent_bytes = svt.intent.as_str().as_bytes_vec();
        out.append(&mut intent_bytes);
        out.push(0xFF);
        let ts = svt.timestamp_epoch;
        out.push((ts % 256) as u8);
        out.push(((ts / 0x100) % 256) as u8);
        out.push(((ts / 0x10000) % 256) as u8);
        out.push(((ts / 0x1000000) % 256) as u8);
        out.push(((ts / 0x100000000) % 256) as u8);
        out.push(((ts / 0x10000000000) % 256) as u8);
        out.push(((ts / 0x1000000000000) % 256) as u8);
        out.push(((ts / 0x100000000000000) % 256) as u8);
        proof {
            assert(out@ =~= transaction_encoding(
                svt.did@,
                svt.energy_signature_value,
                svt.intent@,
                svt.timestamp_epoch,
            ));
        }
        out
    }

    /// FNV-1a over a byte vector, from the standard offset basis.
    pub fn fnv1a_hash(data: &Vec<u8>) -> (r: u64)
        ensures
            r == fnv1a_update(FNV_OFFSET_BASIS, data@),
    {
        let mut h: u64 = FNV_OFFSET_BASIS;
        let mut i: usize = 0;
        while i < data.len()
            invariant
                i <= data@.len(),
                h == fnv1a_update(FNV_OFFSET_BASIS, data@.take(i as int)),
            decreases data@.len() - i,
        {
            h = (h ^ (data[i] as u64)).wrapping_mul(FNV_PRIME);
            proof {
                assert(data@.take(i + 1).drop_last() =~= data@.take(i as int));
                assert(data@.take(i + 1).last() == data@[i as int]);
            }
            i = i + 1;
        }
        proof {
            assert(data@.take(data@.len() as int) =~= data@);
        }
        h
    }

    /// The stable metadata hash of a transaction.
    pub fn hash_transaction(svt: &SovereignVerificationTransaction) -> (r: u64)
        ensures
            r == stable_hash(svt.did@, svt.energy_signature_value, svt.intent@, svt.timestamp_epoch),
    {
        let encoded = Self::encode_transaction(svt);
        Self::fnv1a_hash(&encoded)
    }

    /// The signal-amplification term: the scaled signal is replicated into
    /// eight logical lanes and reduced by summation, numerically equal to
    /// the scaled value times the lane count.
    pub fn amplify_signal(energy: u16) -> (r: u64)
        ensures
            r == (energy as u64) * SIGNAL_AMPLIFICATION * (SIGNAL_LANES as u64),
    {
        let scaled: u64 = (energy as u64) * SIGNAL_AMPLIFICATION;
        let mut lanes: Vec<u64> = Vec::new();
        let mut k: usize = 0;
        while k < SIGNAL_LANES
            invariant
                k <= SIGNAL_LANES,
                lanes@.len() == k,
                scaled == (energy as u64) * SIGNAL_AMPLIFICATION,
                forall|j: int| 0 <= j < k ==> lanes@[j] == scaled,
            decreases SIGNAL_LANES - k,
        {
            lanes.push(scaled);
            k = k + 1;
        }
        let pair_0 = lanes[0] + lanes[1];
        let pair_1 = lanes[2] + lanes[3];
        let pair_2 = lanes[4] + lanes[5];
        let pair_3 = lanes[6] + lanes[7];
        let half_0 = pair_0 + pair_1;
        let half_1 = pair_2 + pair_3;
        proof {
            assert(scaled == (energy as u64) * SIGNAL_AMPLIFICATION);
            assert(half_0 + half_1 == 8 * scaled);
            assert(half_0 + half_1 == (energy as int) * 16 * 8);
        }
        half_0 + half_1
    }

    /// Executes the weighting algorithm: a pure, deterministic function of
    /// the transaction fields and the external modifier, combined with
    /// wrapping 64-bit arithmetic so it is total over its input domain.
    pub fn execute_weighting(svt: &SovereignVerificationTransaction, external_modifier: u64) -> (r:
        u64)
        ensures
            r == consensus_weight(
                svt.did@,
                svt.energy_signature_value,
                svt.intent@,
                svt.timestamp_epoch,
                external_modifier,
            ),
    {
        let metadata_hash = Self::hash_transaction(svt);
        let amplified = Self::amplify_signal(svt.energy_signature_value);
        let intent_bonus: u64 = if crate::strutil::str_eq(svt.intent.as_str(), "OVERRIDE") {
            RESERVED_INTENT_BONUS
        } else {
            0
        };
        (metadata_hash / 2).wrapping_add(amplified).wrapping_add(intent_bonus).wrapping_add(
            external_modifier,
        )
    }
}

/// Determinism law: the consensus weight is a function of the transaction's
/// field values and the modifier alone, so two transactions with identical
/// fields weigh identically.
pub proof fn lemma_weighting_deterministic(
    a: SovereignVerificationTransaction,
    b: SovereignVerificationTransaction,
    external_modifier: u64,
)
    requires
        a.did@ == b.did@,
        a.energy_signature_value == b.energy_signature_value,
        a.intent@ == b.intent@,
        a.timestamp_epoch == b.timestamp_epoch,
    ensures
        consensus_weight(a.did@, a.energy_signature_value, a.intent@, a.timestamp_epoch, external_modifier)
            == consensus_weight(b.did@, b.energy_signature_value, b.intent@, b.timestamp_epoch, external_modifier),
{
}

/// Dominance law: when the intent is the reserved override token and the
/// four terms do not wrap, the weight is at least the reserved bonus. The
/// no-wrap bound is necessary: with the modifier at `u64::MAX` the sum wraps
/// below the bonus.
pub proof fn lemma_reserved_intent_dominates(
    did: Seq<char>,
    energy: u16,
    intent: Seq<char>,
    timestamp: u64,
    external_modifier: u64,
)
    requires
        intent == reserved_override_intent(),
        (stable_hash(did, energy, intent, timestamp) / 2) + (energy as int) * 128
            + RESERVED_INTENT_BONUS + external_modifier <= u64::MAX,
    ensures
        consensus_weight(did, energy, intent, timestamp, external_modifier)
            >= RESERVED_INTENT_BONUS,
{
}

} // verus!
