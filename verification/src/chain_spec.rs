//! The distributable chain specification: network-identity metadata bound to
//! a deferred genesis builder, and the development specification that endows
//! the well-known Alice and Bob accounts.

use vstd::prelude::*;

use crate::genesis::{EvmAddress, GenesisBuilder};
use crate::inflation::InflationParameters;
use crate::keys::{get_account_id_from_seed, get_aura_id_from_seed, is_dev_seed, sr25519_public_of};
use crate::schedule::{lemma_permill_sum4, Permill, StakingSchedule, TierThreshold};
use crate::ASTR;

verus! {

/// The network identifier this development specification is built for.
pub const PARA_ID: u32 = 2006;

/// How a specification is presented and consumed; it does not alter genesis
/// assembly.
#[derive(Clone, PartialEq, Eq, Debug)]
pub enum ChainType {
    /// A development chain running on a single node.
    Development,
    /// A local chain running on multiple nodes.
    Local,
    /// A live, shareable network.
    Live,
    /// Some custom classification.
    Custom(String),
}

/// Display metadata, unrelated to consensus-relevant state.
#[derive(Clone, PartialEq, Eq, Debug)]
pub struct Properties {
    /// The token's display symbol.
    pub token_symbol: String,
    /// The token's decimal precision.
    pub token_decimals: u32,
}

/// Node-launcher-relevant fields outside core genesis.
#[derive(Clone, PartialEq, Eq, Debug)]
pub struct Extensions {
    /// Known-bad block hashes the launcher must refuse.
    pub bad_blocks: Vec<[u8; 32]>,
    /// The relay chain this parachain attaches to.
    pub relay_chain: String,
    /// The network's parachain identifier.
    pub para_id: u32,
}

/// A distributable specification: network metadata plus a deferred genesis
/// builder, so that genesis construction can be repeated identically.
#[derive(Clone, PartialEq, Eq, Debug)]
pub struct ChainSpec {
    /// Human-readable network name.
    pub name: String,
    /// Short network identifier.
    pub id: String,
    /// Presentation/behavioural class of the specification.
    pub chain_type: ChainType,
    /// How to build genesis, stored rather than the built result.
    pub genesis: GenesisBuilder,
    /// Initial peers to connect to.
    pub boot_nodes: Vec<String>,
    /// Telemetry endpoints to report to.
    pub telemetry_endpoints: Vec<String>,
    /// Network protocol identifier.
    pub protocol_id: Option<String>,
    /// Optional fork identifier.
    pub fork_id: Option<String>,
    /// Display metadata.
    pub properties: Option<Properties>,
    /// Launcher-relevant extension fields.
    pub extensions: Extensions,
}

impl ChainSpec {
    /// Bind a deferred genesis builder together with network metadata into a
    /// distributable specification. Every field is stored as supplied.
    pub fn from_genesis(
        name: String,
        id: String,
        chain_type: ChainType,
        genesis: GenesisBuilder,
        boot_nodes: Vec<String>,
        telemetry_endpoints: Vec<String>,
        protocol_id: Option<String>,
        fork_id: Option<String>,
        properties: Option<Properties>,
        extensions: Extensions,
    ) -> (r: ChainSpec)
        ensures
            r == (ChainSpec {
                name,
                id,
                chain_type,
                genesis,
                boot_nodes,
                telemetry_endpoints,
                protocol_id,
                fork_id,
                properties,
                extensions,
            }),
    {
        ChainSpec {
            name,
            id,
            chain_type,
            genesis,
            boot_nodes,
            telemetry_endpoints,
            protocol_id,
            fork_id,
            properties,
            extensions,
        }
    }
}

/// The development staking schedule: reward portions 40/30/20/10 percent,
/// slot shares 10/20/30/40 percent, four tier thresholds, and 10/20/30/40
/// slots per tier.
pub open spec fn is_dev_staking_schedule(s: StakingSchedule) -> bool {
    &&& s.reward_portion@.len() == 4
    &&& s.reward_portion@[0].parts == 400_000
    &&& s.reward_portion@[1].parts == 300_000
    &&& s.reward_portion@[2].parts == 200_000
    &&& s.reward_portion@[3].parts == 100_000
    &&& s.slot_distribution@.len() == 4
    &&& s.slot_distribution@[0].parts == 100_000
    &&& s.slot_distribution@[1].parts == 200_000
    &&& s.slot_distribution@[2].parts == 300_000
    &&& s.slot_distribution@[3].parts == 400_000
    &&& s.tier_thresholds@.len() == 4
    &&& s.tier_thresholds@[0] == (TierThreshold::DynamicTvlAmount {
        amount: (30_000 * ASTR) as u128,
        minimum_amount: (20_000 * ASTR) as u128,
    })
    &&& s.tier_thresholds@[1] == (TierThreshold::DynamicTvlAmount {
        amount: (7_500 * ASTR) as u128,
        minimum_amount: (5_000 * ASTR) as u128,
    })
    &&& s.tier_thresholds@[2] == (TierThreshold::DynamicTvlAmount {
        amount: (20_000 * ASTR) as u128,
        minimum_amount: (15_000 * ASTR) as u128,
    })
    &&& s.tier_thresholds@[3] == (TierThreshold::FixedTvlAmount { amount: (5_000 * ASTR) as u128 })
    &&& s.slots_per_tier@ =~= seq![10u16, 20u16, 30u16, 40u16]
}

/// Build the development staking schedule; the result is valid — both
/// percentage sequences total one hundred percent and tiers correspond to
/// slot counts one to one.
fn dev_staking_schedule() -> (s: StakingSchedule)
    ensures
        is_dev_staking_schedule(s),
        s.is_valid(),
{
    let mut reward_portion: Vec<Permill> = Vec::new();
    reward_portion.push(Permill::from_percent(40));
    reward_portion.push(Permill::from_percent(30));
    reward_portion.push(Permill::from_percent(20));
    reward_portion.push(Permill::from_percent(10));
    let mut slot_distribution: Vec<Permill> = Vec::new();
    slot_distribution.push(Permill::from_percent(10));
    slot_distribution.push(Permill::from_percent(20));
    slot_distribution.push(Permill::from_percent(30));
    slot_distribution.push(Permill::from_percent(40));
    let mut tier_thresholds: Vec<TierThreshold> = Vec::new();
    tier_thresholds.push(
        TierThreshold::DynamicTvlAmount { amount: 30_000 * ASTR, minimum_amount: 20_000 * ASTR },
    );
    tier_thresholds.push(
        TierThreshold::DynamicTvlAmount { amount: 7_500 * ASTR, minimum_amount: 5_000 * ASTR },
    );
    tier_thresholds.push(
        TierThreshold::DynamicTvlAmount { amount: 20_000 * ASTR, minimum_amount: 15_000 * ASTR },
    );
    tier_thresholds.push(TierThreshold::FixedTvlAmount { amount: 5_000 * ASTR });
    let mut slots_per_tier: Vec<u16> = Vec::new();
    slots_per_tier.push(10);
    slots_per_tier.push(20);
    slots_per_tier.push(30);
    slots_per_tier.push(40);
    let s = StakingSchedule { reward_portion, slot_distribution, tier_thresholds, slots_per_tier };
    proof {
        lemma_permill_sum4(s.reward_portion@);
        lemma_permill_sum4(s.slot_distribution@);
        assert forall|i: int| 0 <= i < s.tier_thresholds@.len() implies (
        #[trigger] s.tier_thresholds@[i]).is_wf() by {
            assert(s.tier_thresholds@[0].is_wf());
            assert(s.tier_thresholds@[1].is_wf());
            assert(s.tier_thresholds@[2].is_wf());
            assert(s.tier_thresholds@[3].is_wf());
        }
    }
    s
}

/// Generate the development chain specification. The caller supplies what the
/// runtime collaborator provides: the chain code blob, the reserved
/// contract-execution addresses, and the default inflation parameters.
///
/// The result endows Alice and Bob with one billion tokens each, makes Alice
/// the administrative key, and registers Alice and Bob as the only
/// authorities, with the development staking schedule.
pub fn get_chain_spec(
    code: Vec<u8>,
    precompile_addresses: Vec<EvmAddress>,
    inflation: InflationParameters,
) -> (r: ChainSpec)
    ensures
        r.name@ == "Astar Testnet"@,
        r.id@ == "astar"@,
        r.chain_type == ChainType::Development,
        r.boot_nodes@.len() == 0,
        r.telemetry_endpoints@.len() == 0,
        r.protocol_id is None,
        r.fork_id is None,
        r.properties matches Some(p) && p.token_symbol@ == "ASTR"@ && p.token_decimals == 18,
        r.extensions.relay_chain@ == "tokyo"@,
        r.extensions.para_id == PARA_ID,
        r.extensions.bad_blocks@.len() == 0,
        r.genesis.parachain_id == PARA_ID,
        r.genesis.code@ == code@,
        r.genesis.precompile_addresses@ == precompile_addresses@,
        r.genesis.inflation == inflation,
        r.genesis.root_key@ == sr25519_public_of("Alice"@),
        r.genesis.endowments@.len() == 2,
        r.genesis.endowments@[0].0@ == sr25519_public_of("Alice"@),
        r.genesis.endowments@[0].1 == (1_000_000_000 * ASTR) as u128,
        r.genesis.endowments@[1].0@ == sr25519_public_of("Bob"@),
        r.genesis.endowments@[1].1 == (1_000_000_000 * ASTR) as u128,
        r.genesis.authorities@.len() == 2,
        r.genesis.authorities@[0].0@ == sr25519_public_of("Alice"@),
        r.genesis.authorities@[0].1@ == sr25519_public_of("Alice"@),
        r.genesis.authorities@[1].0@ == sr25519_public_of("Bob"@),
        r.genesis.authorities@[1].1@ == sr25519_public_of("Bob"@),
        r.genesis.desired_candidates == 32,
        r.genesis.candidacy_bond == (3_200_000 * ASTR) as u128,
        is_dev_staking_schedule(r.genesis.dapp_staking),
        r.genesis.dapp_staking.is_valid(),
{
    proof {
        reveal_strlit("Alice");
        reveal_strlit("Bob");
        assert(is_dev_seed("Alice"@));
        assert(is_dev_seed("Bob"@));
    }
    let sudo_key = get_account_id_from_seed("Alice").unwrap();
    let bob = get_account_id_from_seed("Bob").unwrap();
    let aura_alice = get_aura_id_from_seed("Alice").unwrap();
    let aura_bob = get_aura_id_from_seed("Bob").unwrap();

    let mut endowments: Vec<([u8; 32], u128)> = Vec::new();
    endowments.push((sudo_key, 1_000_000_000 * ASTR));
    endowments.push((bob, 1_000_000_000 * ASTR));

    let mut authorities: Vec<([u8; 32], [u8; 32])> = Vec::new();
    authorities.push((sudo_key, aura_alice));
    authorities.push((bob, aura_bob));

    let genesis = GenesisBuilder {
        code,
        root_key: sudo_key,
        parachain_id: PARA_ID,
        endowments,
        authorities,
        desired_candidates: 32,
        candidacy_bond: 3_200_000 * ASTR,
        precompile_addresses,
        dapp_staking: dev_staking_schedule(),
        inflation,
    };

    let properties = Properties { token_symbol: "ASTR".to_owned(), token_decimals: 18 };
    let extensions = Extensions {
        bad_blocks: Vec::new(),
        relay_chain: "tokyo".to_owned(),
        para_id: PARA_ID,
    };

    ChainSpec::from_genesis(
        "Astar Testnet".to_owned(),
        "astar".to_owned(),
        ChainType::Development,
        genesis,
        Vec::new(),
        Vec::new(),
        None,
        None,
        Some(properties),
        extensions,
    )
}

} // verus!
