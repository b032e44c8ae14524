//! Genesis assembly: an immutable builder holding owned copies of every
//! input, and a pure `build` that composes one consistent genesis-state
//! value. The composition rules proved here: session keys and the
//! invulnerable set both come from the single supplied authority list, every
//! reserved contract-execution address is pre-seeded with the fixed revert
//! stub at zero nonce/balance/storage, unused sub-states are set to their
//! empty form, and everything else passes through unchanged.

use vstd::prelude::*;

use crate::clone_vec_copy;
use crate::inflation::InflationParameters;
use crate::keys::{AccountId, AuraId};
use crate::schedule::StakingSchedule;
use crate::Balance;

verus! {

/// A contract-execution-layer address: 20 raw bytes.
pub type EvmAddress = [u8; 20];

/// The session keys an authority uses for block-production duties.
#[derive(Clone, Copy, PartialEq, Eq, Debug)]
pub struct SessionKeys {
    /// The block-authoring (aura) key.
    pub aura: AuraId,
}

/// Wrap an authoring key as a session-key record.
pub fn session_keys(aura: AuraId) -> (r: SessionKeys)
    ensures
        r == (SessionKeys { aura }),
{
    SessionKeys { aura }
}

/// A contract-execution-layer account pre-seeded at genesis.
#[derive(Clone, PartialEq, Eq, Debug)]
pub struct EvmGenesisAccount {
    /// Transaction count, zero at genesis.
    pub nonce: u64,
    /// Balance held at the address, zero at genesis.
    pub balance: Balance,
    /// Contract storage cells, empty at genesis.
    pub storage: Vec<([u8; 32], [u8; 32])>,
    /// Bytecode installed at the address.
    pub code: Vec<u8>,
}

/// The smallest bytecode that reverts without returning data
/// (`PUSH1 0x00 PUSH1 0x00 REVERT`). Pre-seeded under every reserved address
/// so that the execution layer dispatches calls to it instead of treating the
/// address as a plain account.
pub open spec fn revert_bytecode() -> Seq<u8> {
    seq![0x60u8, 0x00u8, 0x60u8, 0x00u8, 0xFDu8]
}

/// Build the fixed revert stub.
pub fn make_revert_bytecode() -> (r: Vec<u8>)
    ensures
        r@ == revert_bytecode(),
{
    let mut r: Vec<u8> = Vec::new();
    r.push(0x60);
    r.push(0x00);
    r.push(0x60);
    r.push(0x00);
    r.push(0xFD);
    proof {
        assert(r@ =~= revert_bytecode());
    }
    r
}

/// One fully-populated, internally consistent genesis-state value.
#[derive(Clone, PartialEq, Eq, Debug)]
pub struct GenesisState {
    /// The raw chain code blob.
    pub code: Vec<u8>,
    /// The administrative (sudo) account.
    pub sudo_key: Option<AccountId>,
    /// The network's parachain identifier.
    pub parachain_id: u32,
    /// Initial balance of each endowed account.
    pub balances: Vec<(AccountId, Balance)>,
    /// Vesting entries (account, start block, period, per-period amount);
    /// empty at genesis.
    pub vesting: Vec<(AccountId, u32, u32, Balance)>,
    /// Session-key mapping: each authority account, its validator id, and
    /// its session keys.
    pub session_keys: Vec<(AccountId, AccountId, SessionKeys)>,
    /// Aura authorities seeded directly; empty, since the session mapping
    /// supplies them.
    pub aura_authorities: Vec<AuraId>,
    /// Desired number of collator candidates.
    pub desired_candidates: u32,
    /// Minimum bond to register as a collator candidate.
    pub candidacy_bond: Balance,
    /// Collators exempt from automatic removal.
    pub invulnerables: Vec<AccountId>,
    /// Contract-execution accounts pre-seeded at genesis.
    pub evm_accounts: Vec<(EvmAddress, EvmGenesisAccount)>,
    /// The staking reward/slot distribution policy.
    pub dapp_staking: StakingSchedule,
    /// Fixed inflation parameters.
    pub inflation: InflationParameters,
}

/// An entry pre-seeds `addr` with the revert stub: code is the fixed stub,
/// nonce and balance are zero, storage is empty.
pub open spec fn is_revert_stub_at(entry: (EvmAddress, EvmGenesisAccount), addr: EvmAddress) -> bool {
    &&& entry.0 == addr
    &&& entry.1.nonce == 0
    &&& entry.1.balance == 0
    &&& entry.1.storage@.len() == 0
    &&& entry.1.code@ == revert_bytecode()
}

/// An immutable genesis builder: owned copies of every input, so that
/// repeated building cannot observe outside mutation.
#[derive(Clone, PartialEq, Eq, Debug)]
pub struct GenesisBuilder {
    /// The raw chain code blob.
    pub code: Vec<u8>,
    /// The designated root/administrative account.
    pub root_key: AccountId,
    /// The network's parachain identifier.
    pub parachain_id: u32,
    /// Accounts endowed at genesis with their initial balances.
    pub endowments: Vec<(AccountId, Balance)>,
    /// The authority list: each account paired with its authoring key. The
    /// sole source of both the session-key mapping and the invulnerable set.
    pub authorities: Vec<(AccountId, AuraId)>,
    /// Desired number of collator candidates.
    pub desired_candidates: u32,
    /// Minimum bond to register as a collator candidate.
    pub candidacy_bond: Balance,
    /// Reserved contract-execution addresses requiring pre-seeding.
    pub precompile_addresses: Vec<EvmAddress>,
    /// The staking reward/slot distribution policy.
    pub dapp_staking: StakingSchedule,
    /// Fixed inflation parameters.
    pub inflation: InflationParameters,
}

/// The account half of the authority list, in its supplied order.
pub open spec fn authority_accounts(b: GenesisBuilder) -> Seq<AccountId> {
    b.authorities@.map_values(|p: (AccountId, AuraId)| p.0)
}

/// The full relation between a builder and the genesis state it produces.
pub open spec fn is_built_from(g: GenesisState, b: GenesisBuilder) -> bool {
    &&& g.code@ == b.code@
    &&& g.sudo_key == Some(b.root_key)
    &&& g.parachain_id == b.parachain_id
    &&& g.balances@ == b.endowments@
    &&& g.vesting@.len() == 0
    &&& g.session_keys@.len() == b.authorities@.len()
    &&& (forall|i: int|
        0 <= i < b.authorities@.len() ==> #[trigger] g.session_keys@[i] == (
        b.authorities@[i].0,
        b.authorities@[i].0,
        SessionKeys { aura: b.authorities@[i].1 },
        ))
    &&& g.aura_authorities@.len() == 0
    &&& g.desired_candidates == b.desired_candidates
    &&& g.candidacy_bond == b.candidacy_bond
    &&& g.invulnerables@.len() == b.authorities@.len()
    &&& (forall|i: int|
        0 <= i < b.authorities@.len() ==> #[trigger] g.invulnerables@[i] == b.authorities@[i].0)
    &&& g.evm_accounts@.len() == b.precompile_addresses@.len()
    &&& (forall|i: int|
        0 <= i < b.precompile_addresses@.len() ==> is_revert_stub_at(
            #[trigger] g.evm_accounts@[i],
            b.precompile_addresses@[i],
        ))
    &&& g.dapp_staking.reward_portion@ == b.dapp_staking.reward_portion@
    &&& g.dapp_staking.slot_distribution@ == b.dapp_staking.slot_distribution@
    &&& g.dapp_staking.tier_thresholds@ == b.dapp_staking.tier_thresholds@
    &&& g.dapp_staking.slots_per_tier@ == b.dapp_staking.slots_per_tier@
    &&& g.inflation == b.inflation
}

impl GenesisBuilder {
    /// Assemble the genesis state. Pure: the result is a function of the
    /// builder's owned inputs alone, fully pinned by `is_built_from`.
    pub fn build(&self) -> (r: GenesisState)
        ensures
            is_built_from(r, *self),
    {
        let mut session_entries: Vec<(AccountId, AccountId, SessionKeys)> = Vec::new();
        let mut invulnerables: Vec<AccountId> = Vec::new();
        let mut i: usize = 0;
        while i < self.authorities.len()
            invariant
                i <= self.authorities@.len(),
                session_entries@.len() == i,
                invulnerables@.len() == i,
                forall|j: int|
                    0 <= j < i ==> #[trigger] session_entries@[j] == (
                    self.authorities@[j].0,
                    self.authorities@[j].0,
                    SessionKeys { aura: self.authorities@[j].1 },
                    ),
                forall|j: int| 0 <= j < i ==> #[trigger] invulnerables@[j] == self.authorities@[j].0,
            decreases self.authorities@.len() - i,
        {
            let (account, aura) = self.authorities[i];
            session_entries.push((account, account, session_keys(aura)));
            invulnerables.push(account);
            i = i + 1;
        }
        let mut evm_accounts: Vec<(EvmAddress, EvmGenesisAccount)> = Vec::new();
        let mut k: usize = 0;
        while k < self.precompile_addresses.len()
            invariant
                k <= self.precompile_addresses@.len(),
                evm_accounts@.len() == k,
                forall|j: int|
                    0 <= j < k ==> is_revert_stub_at(
                        #[trigger] evm_accounts@[j],
                        self.precompile_addresses@[j],
                    ),
            decreases self.precompile_addresses@.len() - k,
        {
            let address = self.precompile_addresses[k];
            let account = EvmGenesisAccount {
                nonce: 0,
                balance: 0,
                storage: Vec::new(),
                code: make_revert_bytecode(),
            };
            evm_accounts.push((address, account));
            k = k + 1;
        }
        GenesisState {
            code: clone_vec_copy(&self.code),
            sudo_key: Some(self.root_key),
            parachain_id: self.parachain_id,
            balances: clone_vec_copy(&self.endowments),
            vesting: Vec::new(),
            session_keys: session_entries,
            aura_authorities: Vec::new(),
            desired_candidates: self.desired_candidates,
            candidacy_bond: self.candidacy_bond,
            invulnerables,
            evm_accounts,
            dapp_staking: self.dapp_staking.duplicate(),
            inflation: self.inflation,
        }
    }
}

/// Law: authority consistency. Every supplied authority pair appears in the
/// session-key mapping bound to its own authoring key, the same account
/// appears in the invulnerable set, and the invulnerable set is exactly the
/// account half of the authority list — it has no member outside it.
pub proof fn lemma_authority_consistency(b: GenesisBuilder, g: GenesisState)
    requires
        is_built_from(g, b),
    ensures
        g.session_keys@.len() == b.authorities@.len(),
        g.invulnerables@.len() == b.authorities@.len(),
        forall|i: int|
            0 <= i < b.authorities@.len() ==> (#[trigger] g.session_keys@[i]).0 == b.authorities@[i].0
                && g.session_keys@[i].2 == (SessionKeys { aura: b.authorities@[i].1 }),
        g.invulnerables@ == authority_accounts(b),
        forall|a: AccountId|
            #[trigger] g.invulnerables@.contains(a) ==> authority_accounts(b).contains(a),
{
    assert(g.invulnerables@ =~= authority_accounts(b));
}

/// Law: precompile seeding. After assembly, every reserved address is backed
/// by the fixed revert stub with zero nonce, zero balance and empty storage.
pub proof fn lemma_precompile_seeding(b: GenesisBuilder, g: GenesisState)
    requires
        is_built_from(g, b),
    ensures
        g.evm_accounts@.len() == b.precompile_addresses@.len(),
        forall|i: int|
            0 <= i < b.precompile_addresses@.len() ==> is_revert_stub_at(
                #[trigger] g.evm_accounts@[i],
                b.precompile_addresses@[i],
            ),
{
}

/// Law: when the reserved addresses are distinct, each one is pre-seeded
/// exactly once — one entry carries it, and no other entry does.
pub proof fn lemma_precompile_seeded_once(b: GenesisBuilder, g: GenesisState, a: EvmAddress)
    requires
        is_built_from(g, b),
        b.precompile_addresses@.no_duplicates(),
        b.precompile_addresses@.contains(a),
    ensures
        exists|i: int|
            {
                &&& 0 <= i < g.evm_accounts@.len()
                &&& is_revert_stub_at(#[trigger] g.evm_accounts@[i], a)
                &&& (forall|j: int|
                    0 <= j < g.evm_accounts@.len() && (#[trigger] g.evm_accounts@[j]).0 == a ==> j
                        == i)
            },
{
    let w = choose|w: int|
        0 <= w < b.precompile_addresses@.len() && b.precompile_addresses@[w] == a;
    assert(is_revert_stub_at(g.evm_accounts@[w], b.precompile_addresses@[w]));
    assert forall|j: int|
        0 <= j < g.evm_accounts@.len() && (#[trigger] g.evm_accounts@[j]).0 == a implies j == w by {
        assert(is_revert_stub_at(g.evm_accounts@[j], b.precompile_addresses@[j]));
        assert(b.precompile_addresses@[j] == a);
    }
    assert(0 <= w < g.evm_accounts@.len() && is_revert_stub_at(g.evm_accounts@[w], a) && (
    forall|j: int|
        0 <= j < g.evm_accounts@.len() && (#[trigger] g.evm_accounts@[j]).0 == a ==> j == w));
}

/// Law: building is deterministic and idempotent. Two genesis states built
/// from the same builder agree on every sub-state, so the deferred producer
/// may be invoked repeatedly and always yields the same snapshot.
pub proof fn lemma_build_deterministic(b: GenesisBuilder, g1: GenesisState, g2: GenesisState)
    requires
        is_built_from(g1, b),
        is_built_from(g2, b),
    ensures
        g1.code@ == g2.code@,
        g1.sudo_key == g2.sudo_key,
        g1.parachain_id == g2.parachain_id,
        g1.balances@ == g2.balances@,
        g1.vesting@.len() == 0 && g2.vesting@.len() == 0,
        g1.session_keys@ == g2.session_keys@,
        g1.aura_authorities@.len() == 0 && g2.aura_authorities@.len() == 0,
        g1.desired_candidates == g2.desired_candidates,
        g1.candidacy_bond == g2.candidacy_bond,
        g1.invulnerables@ == g2.invulnerables@,
        g1.evm_accounts@.len() == g2.evm_accounts@.len(),
        forall|i: int|
            0 <= i < g1.evm_accounts@.len() ==> (#[trigger] g1.evm_accounts@[i]).0
                == g2.evm_accounts@[i].0 && g1.evm_accounts@[i].1.code@ == g2.evm_accounts@[i].1.code@
                && g1.evm_accounts@[i].1.nonce == g2.evm_accounts@[i].1.nonce
                && g1.evm_accounts@[i].1.balance == g2.evm_accounts@[i].1.balance,
        g1.dapp_staking.reward_portion@ == g2.dapp_staking.reward_portion@,
        g1.dapp_staking.slot_distribution@ == g2.dapp_staking.slot_distribution@,
        g1.dapp_staking.tier_thresholds@ == g2.dapp_staking.tier_thresholds@,
        g1.dapp_staking.slots_per_tier@ == g2.dapp_staking.slots_per_tier@,
        g1.inflation == g2.inflation,
{
    assert(g1.session_keys@ =~= g2.session_keys@);
    assert(g1.invulnerables@ =~= g2.invulnerables@);
}

} // verus!
