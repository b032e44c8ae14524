//! Deterministic derivation of development keys and account ids from
//! human-readable seed labels ("Alice", "Bob", ...).
//!
//! This is a development/testing facility only: the seeds are plaintext
//! well-known labels, and the derivation must never back a production key.

use vstd::prelude::*;

verus! {

/// A ledger account identifier: the raw 32 bytes of an sr25519 public key.
pub type AccountId = [u8; 32];

/// A block-authoring (aura) public key, 32 raw sr25519 bytes.
pub type AuraId = [u8; 32];

/// The sr25519 public key that the development secret URI `//<seed>` derives
/// to. Derivation is pure: the result depends on the seed characters alone.
pub uninterp spec fn sr25519_public_of(seed: Seq<char>) -> Seq<u8>;

/// Characters accepted in a development seed label.
pub open spec fn is_seed_char(c: char) -> bool {
    ('a' <= c && c <= 'z') || ('A' <= c && c <= 'Z') || ('0' <= c && c <= '9')
}

/// A well-formed development seed: a nonempty ASCII-alphanumeric label.
pub open spec fn is_dev_seed(s: Seq<char>) -> bool {
    s.len() > 0 && (forall|i: int| 0 <= i < s.len() ==> is_seed_char(s[i]))
}

/// Relies on `sp_core::sr25519::Pair::from_string` and `Pair::public`:
/// deriving a keypair from the secret URI `//<seed>` is a pure function of
/// the string (hard derivation from the fixed development phrase, no
/// randomness), and it succeeds whenever `<seed>` is a nonempty
/// ASCII-alphanumeric label (the URI then parses as a single hard junction
/// over the valid development phrase, and sr25519 hard derivation is total).
#[verifier::external_body]
fn sr25519_public_from_seed(seed: &str) -> (r: Option<[u8; 32]>)
    ensures
        (r matches Some(p) ==> p@ == sr25519_public_of(seed@)),
        is_dev_seed(seed@) ==> r is Some,
{
    match <sp_core::sr25519::Pair as sp_core::Pair>::from_string(&format!("//{}", seed), None) {
        Ok(pair) => Some(sp_core::Pair::public(&pair).to_raw()),
        Err(_) => None,
    }
}

/// Derive the account id for a development seed label. The account identity
/// of an sr25519 public key is its raw 32 bytes, so the account id equals the
/// derived public key.
pub fn get_account_id_from_seed(seed: &str) -> (r: Option<AccountId>)
    ensures
        (r matches Some(a) ==> a@ == sr25519_public_of(seed@)),
        is_dev_seed(seed@) ==> r is Some,
{
    sr25519_public_from_seed(seed)
}

/// Derive the block-authoring (aura) key for a development seed label. Aura
/// keys use the same sr25519 scheme and the same textual seed.
pub fn get_aura_id_from_seed(seed: &str) -> (r: Option<AuraId>)
    ensures
        (r matches Some(k) ==> k@ == sr25519_public_of(seed@)),
        is_dev_seed(seed@) ==> r is Some,
{
    sr25519_public_from_seed(seed)
}

/// Law: seed derivation is deterministic. The key a seed derives to is a
/// function of the seed characters alone, so any two derivations from equal
/// seeds yield equal keys and equal account ids.
pub proof fn lemma_derivation_deterministic(s: Seq<char>, k1: Seq<u8>, k2: Seq<u8>)
    requires
        k1 == sr25519_public_of(s),
        k2 == sr25519_public_of(s),
    ensures
        k1 == k2,
{
}

} // verus!
