//! Key derivation: determinism, distinctness, and the well-known development
//! account ids.

use astar_chain_spec::keys::{get_account_id_from_seed, get_aura_id_from_seed};

/// Decode a lowercase hex string into bytes.
fn hex_to_bytes32(s: &str) -> [u8; 32] {
    let bytes = s.as_bytes();
    assert_eq!(bytes.len(), 64);
    let mut out = [0u8; 32];
    let digit = |c: u8| -> u8 {
        match c {
            b'0'..=b'9' => c - b'0',
            b'a'..=b'f' => c - b'a' + 10,
            _ => panic!("not a hex digit"),
        }
    };
    for i in 0..32 {
        out[i] = digit(bytes[2 * i]) * 16 + digit(bytes[2 * i + 1]);
    }
    out
}

#[test]
fn alice_account_id_matches_known_value() {
    let alice = get_account_id_from_seed("Alice").unwrap();
    let expected =
        hex_to_bytes32("d43593c715fdd31c61141abd04a99fd6822c8558854ccde39a5684e7a56da27d");
    assert_eq!(alice, expected);
}

#[test]
fn bob_account_id_matches_known_value() {
    let bob = get_account_id_from_seed("Bob").unwrap();
    let expected =
        hex_to_bytes32("8eaf04151687736326c9fea17e25fc5287613693c912909cb226aa4794f26a48");
    assert_eq!(bob, expected);
}

#[test]
fn derivation_is_deterministic() {
    let a1 = get_account_id_from_seed("Alice").unwrap();
    let a2 = get_account_id_from_seed("Alice").unwrap();
    assert_eq!(a1, a2);
    let k1 = get_aura_id_from_seed("Alice").unwrap();
    let k2 = get_aura_id_from_seed("Alice").unwrap();
    assert_eq!(k1, k2);
}

#[test]
fn different_seeds_derive_different_accounts() {
    let alice = get_account_id_from_seed("Alice").unwrap();
    let bob = get_account_id_from_seed("Bob").unwrap();
    assert_ne!(alice, bob);
}

#[test]
fn aura_key_uses_the_same_scheme_as_the_account() {
    let account = get_account_id_from_seed("Charlie").unwrap();
    let aura = get_aura_id_from_seed("Charlie").unwrap();
    assert_eq!(account, aura);
}
