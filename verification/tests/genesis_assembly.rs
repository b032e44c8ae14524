//! Genesis assembly through the development chain specification: endowments,
//! sudo key, authority consistency, precompile seeding, and idempotence.

use astar_chain_spec::chain_spec::{get_chain_spec, ChainType};
use astar_chain_spec::inflation::{InflationParameters, Perquintill};
use astar_chain_spec::keys::{get_account_id_from_seed, get_aura_id_from_seed};
use astar_chain_spec::ASTR;

fn inflation_defaults() -> InflationParameters {
    let pct = |p: u64| Perquintill::from_parts(p * 10_000_000_000_000_000);
    InflationParameters {
        max_inflation_rate: pct(7),
        treasury_part: pct(5),
        collators_part: pct(3),
        dapps_part: pct(20),
        base_stakers_part: pct(25),
        adjustable_stakers_part: pct(35),
        bonus_part: pct(12),
        ideal_staking_rate: pct(20),
    }
}

fn sample_code() -> Vec<u8> {
    vec![0x00, 0x61, 0x73, 0x6d]
}

fn sample_precompiles() -> Vec<[u8; 20]> {
    let mut addresses = Vec::new();
    for low in 1u8..=9 {
        let mut a = [0u8; 20];
        a[19] = low;
        addresses.push(a);
    }
    addresses
}

#[test]
fn dev_genesis_matches_the_expected_snapshot() {
    let spec = get_chain_spec(sample_code(), sample_precompiles(), inflation_defaults());
    let genesis = spec.genesis.build();

    let alice = get_account_id_from_seed("Alice").unwrap();
    let bob = get_account_id_from_seed("Bob").unwrap();
    let aura_alice = get_aura_id_from_seed("Alice").unwrap();
    let aura_bob = get_aura_id_from_seed("Bob").unwrap();

    assert_eq!(genesis.balances.len(), 2);
    assert_eq!(genesis.balances[0], (alice, 1_000_000_000 * ASTR));
    assert_eq!(genesis.balances[1], (bob, 1_000_000_000 * ASTR));

    assert_eq!(genesis.sudo_key, Some(alice));
    assert_eq!(genesis.parachain_id, 2006);
    assert_eq!(genesis.code, sample_code());

    assert_eq!(genesis.session_keys.len(), 2);
    assert_eq!(genesis.session_keys[0].0, alice);
    assert_eq!(genesis.session_keys[0].1, alice);
    assert_eq!(genesis.session_keys[0].2.aura, aura_alice);
    assert_eq!(genesis.session_keys[1].0, bob);
    assert_eq!(genesis.session_keys[1].1, bob);
    assert_eq!(genesis.session_keys[1].2.aura, aura_bob);

    assert_eq!(genesis.invulnerables, vec![alice, bob]);
    assert_eq!(genesis.desired_candidates, 32);
    assert_eq!(genesis.candidacy_bond, 3_200_000 * ASTR);

    assert!(genesis.vesting.is_empty());
    assert!(genesis.aura_authorities.is_empty());
}

#[test]
fn every_precompile_address_is_seeded_with_the_revert_stub() {
    let precompiles = sample_precompiles();
    let spec = get_chain_spec(sample_code(), precompiles.clone(), inflation_defaults());
    let genesis = spec.genesis.build();

    assert_eq!(genesis.evm_accounts.len(), precompiles.len());
    for (entry, addr) in genesis.evm_accounts.iter().zip(precompiles.iter()) {
        assert_eq!(entry.0, *addr);
        assert_eq!(entry.1.code, vec![0x60, 0x00, 0x60, 0x00, 0xFD]);
        assert_eq!(entry.1.nonce, 0);
        assert_eq!(entry.1.balance, 0);
        assert!(entry.1.storage.is_empty());
    }
}

#[test]
fn building_twice_yields_identical_genesis_state() {
    let spec = get_chain_spec(sample_code(), sample_precompiles(), inflation_defaults());
    let first = spec.genesis.build();
    let second = spec.genesis.build();
    assert_eq!(first, second);
}

#[test]
fn dev_spec_metadata_is_fixed() {
    let spec = get_chain_spec(sample_code(), sample_precompiles(), inflation_defaults());
    assert_eq!(spec.name, "Astar Testnet");
    assert_eq!(spec.id, "astar");
    assert_eq!(spec.chain_type, ChainType::Development);
    assert!(spec.boot_nodes.is_empty());
    assert!(spec.telemetry_endpoints.is_empty());
    assert_eq!(spec.protocol_id, None);
    assert_eq!(spec.fork_id, None);
    let properties = spec.properties.unwrap();
    assert_eq!(properties.token_symbol, "ASTR");
    assert_eq!(properties.token_decimals, 18);
    assert_eq!(spec.extensions.relay_chain, "tokyo");
    assert_eq!(spec.extensions.para_id, 2006);
    assert!(spec.extensions.bad_blocks.is_empty());
}

#[test]
fn dev_schedule_in_the_spec_is_valid() {
    let spec = get_chain_spec(sample_code(), sample_precompiles(), inflation_defaults());
    let schedule = &spec.genesis.dapp_staking;
    assert_eq!(schedule.validate(), Ok(()));
    let reward: Vec<u32> = schedule.reward_portion.iter().map(|p| p.parts).collect();
    assert_eq!(reward, vec![400_000, 300_000, 200_000, 100_000]);
    let slots: Vec<u32> = schedule.slot_distribution.iter().map(|p| p.parts).collect();
    assert_eq!(slots, vec![100_000, 200_000, 300_000, 400_000]);
    assert_eq!(schedule.slots_per_tier, vec![10, 20, 30, 40]);
    assert_eq!(schedule.tier_thresholds.len(), 4);
}
