use trust_consensus::consensus::{CoreConsensusEngine, SovereignVerificationTransaction};

fn svt(did: &str, energy: u16, intent: &str, ts: u64) -> SovereignVerificationTransaction {
    SovereignVerificationTransaction {
        did: did.to_string(),
        energy_signature_value: energy,
        intent: intent.to_string(),
        timestamp_epoch: ts,
    }
}

fn reference_encoding(did: &str, energy: u16, intent: &str, ts: u64) -> Vec<u8> {
    let mut out = Vec::new();
    out.extend_from_slice(did.as_bytes());
    out.push(0xFF);
    out.extend_from_slice(&energy.to_le_bytes());
    out.extend_from_slice(intent.as_bytes());
    out.push(0xFF);
    out.extend_from_slice(&ts.to_le_bytes());
    out
}

fn reference_fnv1a(bytes: &[u8]) -> u64 {
    let mut h: u64 = 0xcbf29ce484222325;
    for b in bytes {
        h = (h ^ (*b as u64)).wrapping_mul(0x100000001b3);
    }
    h
}

#[test]
fn encoding_lays_out_fields_little_endian() {
    let t = svt("A", 0x0102, "B", 1);
    let encoded = CoreConsensusEngine::encode_transaction(&t);
    assert_eq!(
        encoded,
        vec![0x41, 0xFF, 0x02, 0x01, 0x42, 0xFF, 1, 0, 0, 0, 0, 0, 0, 0]
    );
}

#[test]
fn transaction_hash_is_fnv1a_over_encoding() {
    let t = svt("did:t3:watcher", 700, "ReadLedger", 1_700_000_000);
    let expected = reference_fnv1a(&reference_encoding(
        "did:t3:watcher",
        700,
        "ReadLedger",
        1_700_000_000,
    ));
    assert_eq!(CoreConsensusEngine::hash_transaction(&t), expected);
}

#[test]
fn weighting_is_deterministic() {
    let a = svt("did:t0:protocol-overseer", 1024, "ACQUISITION_PHASE", 42);
    let b = a.clone();
    let first = CoreConsensusEngine::execute_weighting(&a, 77);
    let second = CoreConsensusEngine::execute_weighting(&b, 77);
    assert_eq!(first, second);
}

#[test]
fn weight_blends_all_four_terms() {
    let t = svt("did:t1:rozel-rosel-admin", 1000, "DeployModule", 99);
    let hash = reference_fnv1a(&reference_encoding(
        "did:t1:rozel-rosel-admin",
        1000,
        "DeployModule",
        99,
    ));
    let expected = (hash / 2)
        .wrapping_add(1000 * 16 * 8)
        .wrapping_add(0)
        .wrapping_add(5555);
    assert_eq!(CoreConsensusEngine::execute_weighting(&t, 5555), expected);
}

#[test]
fn reserved_intent_earns_the_bonus() {
    let t = svt("did:t0:protocol-overseer", 3, "OVERRIDE", 7);
    let hash = reference_fnv1a(&reference_encoding("did:t0:protocol-overseer", 3, "OVERRIDE", 7));
    let expected = (hash / 2)
        .wrapping_add(3 * 16 * 8)
        .wrapping_add(9_000_000_000)
        .wrapping_add(0);
    assert_eq!(CoreConsensusEngine::execute_weighting(&t, 0), expected);
    assert!(CoreConsensusEngine::execute_weighting(&t, 0) >= 9_000_000_000);
}

#[test]
fn non_reserved_intent_earns_no_bonus() {
    let with_bonus = svt("x", 0, "OVERRIDE", 0);
    let without_bonus = svt("x", 0, "OVERRIDE_", 0);
    // the trailing underscore changes the hash term too, so compare against
    // each one's own reference value
    let h1 = reference_fnv1a(&reference_encoding("x", 0, "OVERRIDE", 0));
    let h2 = reference_fnv1a(&reference_encoding("x", 0, "OVERRIDE_", 0));
    assert_eq!(
        CoreConsensusEngine::execute_weighting(&with_bonus, 0),
        (h1 / 2).wrapping_add(9_000_000_000)
    );
    assert_eq!(CoreConsensusEngine::execute_weighting(&without_bonus, 0), h2 / 2);
}

#[test]
fn amplification_term_is_signal_times_128() {
    let zero = svt("z", 0, "ReadLedger", 0);
    let full = svt("z", 1024, "ReadLedger", 0);
    let h = reference_fnv1a(&reference_encoding("z", 0, "ReadLedger", 0));
    assert_eq!(CoreConsensusEngine::execute_weighting(&zero, 0), h / 2);
    let hf = reference_fnv1a(&reference_encoding("z", 1024, "ReadLedger", 0));
    assert_eq!(
        CoreConsensusEngine::execute_weighting(&full, 0),
        (hf / 2).wrapping_add(1024 * 128)
    );
}

#[test]
fn external_modifier_adds_with_wrapping() {
    let t = svt("w", 1, "ReadLedger", 2);
    let base = CoreConsensusEngine::execute_weighting(&t, 0);
    assert_eq!(CoreConsensusEngine::execute_weighting(&t, 10), base.wrapping_add(10));
    assert_eq!(
        CoreConsensusEngine::execute_weighting(&t, u64::MAX),
        base.wrapping_add(u64::MAX)
    );
}

#[test]
fn equal_fields_hash_identically_across_values() {
    let a = svt("did:t3:watcher", 5, "MonitorStream", 10);
    let b = svt("did:t3:watcher", 5, "MonitorStream", 10);
    assert_eq!(
        CoreConsensusEngine::hash_transaction(&a),
        CoreConsensusEngine::hash_transaction(&b)
    );
    let c = svt("did:t3:watcher", 5, "MonitorStream", 11);
    assert_ne!(
        CoreConsensusEngine::hash_transaction(&a),
        CoreConsensusEngine::hash_transaction(&c)
    );
}
