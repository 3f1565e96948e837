//! Trust registry: identifier resolution and tier-scoped intent authorization.
//!
//! `resolve_did_to_credential` maps a decentralized identifier to a
//! credential; `check_access_and_intent` applies the per-tier intent policy.
//! Matching is case-sensitive prefix matching against a fixed allow-list per
//! tier; an intent that matches no entry is always denied.

use crate::consensus::SovereignVerificationTransaction;
use crate::strutil::{spec_starts_with, str_eq, str_starts_with};
use vstd::prelude::*;

verus! {

/// Security tier levels, most to least privileged. The ordering is
/// documentary: each tier's permitted-intent set is declared explicitly,
/// and only `T0_OVERRIDE` is unconditionally permitted everything.
#[allow(non_camel_case_types)]
#[derive(Debug, Clone, Copy, PartialEq, Eq, Structural, PartialOrd, Ord)]
pub enum AccessTier {
    /// The highest tier, reserved for protocol overseers and overrides.
    T0_OVERRIDE,
    /// Administrative and deployment rights.
    T1_ADMIN,
    /// Read/write access to non-critical ledgers and data streams.
    T2_READ_WRITE,
    /// Read-only access for auditing and monitoring.
    T3_AUDIT_ONLY,
    /// Default status, requires secondary verification.
    T4_DEFAULT,
}

/// A validated user's credentials, resolved from an identifier.
pub struct ResolvedCredential {
    pub resolved_did: String,
    pub access_tier: AccessTier,
    /// The specific energy credential hash, monitored for purity.
    pub energy_credential_hash: u64,
}

/// Why an authorization request was rejected.
#[derive(Debug, Clone, Copy, PartialEq, Eq, Structural)]
pub enum AccessError {
    /// The sender identifier does not resolve to any credential.
    Unauthorized,
    /// The identifier resolves, but the intent is outside the tier's
    /// permitted set.
    IntentForbidden,
}

/// The core registry for enforcing access policy.
pub struct TrustRegistry;

/// The tier the registry's table assigns to an identifier, or `None` when
/// the identifier is unknown.
pub open spec fn resolved_tier(did: Seq<char>) -> Option<AccessTier> {
    if did == "did:t0:protocol-overseer"@ {
        Some(AccessTier::T0_OVERRIDE)
    } else if did == "did:t1:rozel-rosel-admin"@ {
        Some(AccessTier::T1_ADMIN)
    } else if spec_starts_with(did, "did:t3:"@) {
        Some(AccessTier::T3_AUDIT_ONLY)
    } else {
        None
    }
}

/// The energy credential hash the registry's table records for each tier it
/// can resolve to; tiers the table never produces carry no meaningful hash.
pub open spec fn tier_credential_hash(tier: AccessTier) -> u64 {
    match tier {
        AccessTier::T0_OVERRIDE => 0xDEADBEEF_C0DE_C0DE,
        AccessTier::T1_ADMIN => 0xAFFE_CAFE_BABE_BABE,
        AccessTier::T3_AUDIT_ONLY => 0xFACE_BEEF,
        _ => 0,
    }
}

/// The per-tier intent policy: which intents a tier may execute.
pub open spec fn intent_allowed(tier: AccessTier, intent: Seq<char>) -> bool {
    match tier {
        AccessTier::T0_OVERRIDE => true,
        AccessTier::T1_ADMIN => !(intent == "GOLD_BAR_VOTE_II"@ || intent == "OVERRIDE"@),
        AccessTier::T2_READ_WRITE => spec_starts_with(intent, "ACQUISITION"@)
            || spec_starts_with(intent, "Read"@) || spec_starts_with(intent, "Write"@),
        AccessTier::T3_AUDIT_ONLY => spec_starts_with(intent, "Read"@)
            || spec_starts_with(intent, "Monitor"@),
        AccessTier::T4_DEFAULT => spec_starts_with(intent, "Read"@)
            || spec_starts_with(intent, "Monitor"@),
    }
}

/// The whole authorization decision for a transaction: `Ok` exactly when the
/// sender resolves and the resolved tier permits the declared intent.
pub open spec fn authorization_decision(did: Seq<char>, intent: Seq<char>) -> Result<
    (),
    AccessError,
> {
    match resolved_tier(did) {
        None => Err(AccessError::Unauthorized),
        Some(tier) => if intent_allowed(tier, intent) {
            Ok(())
        } else {
            Err(AccessError::IntentForbidden)
        },
    }
}

impl TrustRegistry {
    /// Deterministic, side-effect-free lookup of the internal
    /// identifier-to-credential mapping. Returns `None` when the identifier
    /// is unknown or unresolvable.
    pub fn resolve_did_to_credential(did: &str) -> (r: Option<ResolvedCredential>)
        ensures
            r is Some <==> resolved_tier(did@) is Some,
            r matches Some(cred) ==> {
                &&& cred.resolved_did@ == did@
                &&& Some(cred.access_tier) == resolved_tier(did@)
                &&& cred.energy_credential_hash == tier_credential_hash(cred.access_tier)
            },
    {
        if str_eq(did, "did:t0:protocol-overseer") {
            Some(ResolvedCredential {
                resolved_did: did.to_owned(),
                access_tier: AccessTier::T0_OVERRIDE,
                energy_credential_hash: 0xDEADBEEF_C0DE_C0DE,
            })
        } else if str_eq(did, "did:t1:rozel-rosel-admin") {
            Some(ResolvedCredential {
                resolved_did: did.to_owned(),
                access_tier: AccessTier::T1_ADMIN,
                energy_credential_hash: 0xAFFE_CAFE_BABE_BABE,
            })
        } else if str_starts_with(did, "did:t3:") {
            Some(ResolvedCredential {
                resolved_did: did.to_owned(),
                access_tier: AccessTier::T3_AUDIT_ONLY,
                energy_credential_hash: 0xFACE_BEEF,
            })
        } else {
            None
        }
    }

    /// Resolves the sender and enforces the tier-to-intent policy.
    ///
    /// Every unresolved identifier is rejected with `Unauthorized`,
    /// whatever the intent; a resolved `T0_OVERRIDE` sender is always
    /// authorized; every other tier is held to its explicit allow-list and
    /// rejected with `IntentForbidden` outside it.
    pub fn check_access_and_intent(svt: &SovereignVerificationTransaction) -> (r: Result<
        (),
        AccessError,
    >)
        ensures
            r == authorization_decision(svt.did@, svt.intent@),
            resolved_tier(svt.did@) is None <==> r == Err::<(), AccessError>(
                AccessError::Unauthorized,
            ),
            resolved_tier(svt.did@) == Some(AccessTier::T0_OVERRIDE) ==> r is Ok,
    {
        let credential = match Self::resolve_did_to_credential(svt.did.as_str()) {
            Some(cred) => cred,
            None => {
                return Err(AccessError::Unauthorized);
            },
        };
        match credential.access_tier {
            AccessTier::T0_OVERRIDE => Ok(()),
            AccessTier::T1_ADMIN => {
                if str_eq(svt.intent.as_str(), "GOLD_BAR_VOTE_II") || str_eq(
                    svt.intent.as_str(),
                    "OVERRIDE",
                ) {
                    Err(AccessError::IntentForbidden)
                } else {
                    Ok(())
                }
            },
            AccessTier::T2_READ_WRITE => {
                if str_starts_with(svt.intent.as_str(), "ACQUISITION") || str_starts_with(
                    svt.intent.as_str(),
                    "Read",
                ) || str_starts_with(svt.intent.as_str(), "Write") {
                    Ok(())
                } else {
                    Err(AccessError::IntentForbidden)
                }
            },
            _ => {
                if str_starts_with(svt.intent.as_str(), "Read") || str_starts_with(
                    svt.intent.as_str(),
                    "Monitor",
                ) {
                    Ok(())
                } else {
                    Err(AccessError::IntentForbidden)
                }
            },
        }
    }
}

/// Two character sequences whose first characters differ are not in the
/// prefix relation.
proof fn lemma_first_char_blocks_prefix(text: Seq<char>, prefix: Seq<char>)
    requires
        text.len() > 0,
        prefix.len() > 0,
        text[0] != prefix[0],
    ensures
        !spec_starts_with(text, prefix),
{
    if spec_starts_with(text, prefix) {
        assert(text[0] == prefix[0]);
    }
}

/// Default-deny law: every tier below `T0_OVERRIDE` denies at least one
/// intent; the reserved override token is such an intent for each of them.
pub proof fn lemma_default_deny(tier: AccessTier)
    requires
        tier != AccessTier::T0_OVERRIDE,
    ensures
        exists|intent: Seq<char>| !intent_allowed(tier, intent),
{
    reveal_strlit("OVERRIDE");
    reveal_strlit("ACQUISITION");
    reveal_strlit("Read");
    reveal_strlit("Write");
    reveal_strlit("Monitor");
    let witness = "OVERRIDE"@;
    lemma_first_char_blocks_prefix(witness, "Read"@);
    lemma_first_char_blocks_prefix(witness, "Write"@);
    lemma_first_char_blocks_prefix(witness, "Monitor"@);
    assert(!spec_starts_with(witness, "ACQUISITION"@));
    assert(!intent_allowed(tier, witness));
}

} // verus!
