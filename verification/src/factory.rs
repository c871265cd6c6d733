use vstd::prelude::*;

use crate::asset::AssetInfo;
use crate::errors::ContractError;

verus! {

/// The factory's owner-gated configuration.
#[derive(Debug)]
pub struct Config {
    pub owner: String,
    pub token_code_id: u64,
    pub pair_code_id: u64,
    pub token_code_hash: String,
    pub pair_code_hash: String,
    pub prng_seed: Vec<u8>,
}

/// A rational commission rate; the pricing engine of this version works
/// with the fixed 3/1000, these settings are stored for future pairs.
#[derive(Clone, Copy, Debug, PartialEq, Eq, Structural)]
pub struct Fee {
    pub commission_rate_nom: u128,
    pub commission_rate_denom: u128,
}

/// A contract that receives a cut for development funding.
#[derive(Debug)]
pub struct DevFund {
    pub address: String,
    pub fee: Fee,
}

impl Clone for DevFund {
    fn clone(&self) -> (r: DevFund)
        ensures
            r == *self,
    {
        DevFund { address: self.address.clone(), fee: self.fee }
    }
}

/// A contract together with the credential needed to call it.
#[derive(Debug)]
pub struct CallableContract {
    pub address: String,
    pub code_hash: String,
}

impl Clone for CallableContract {
    fn clone(&self) -> (r: CallableContract)
        ensures
            r == *self,
    {
        CallableContract { address: self.address.clone(), code_hash: self.code_hash.clone() }
    }
}

/// The factory-level settings for pairs.
#[derive(Debug)]
pub struct PairSettings {
    pub swap_fee: Fee,
    pub dev_fund: Option<DevFund>,
    pub swap_data_endpoint: Option<CallableContract>,
}

impl Clone for PairSettings {
    fn clone(&self) -> (r: PairSettings)
        ensures
            r == *self,
    {
        let dev_fund = match &self.dev_fund {
            Some(d) => Some(d.clone()),
            None => None,
        };
        let swap_data_endpoint = match &self.swap_data_endpoint {
            Some(c) => Some(c.clone()),
            None => None,
        };
        PairSettings { swap_fee: self.swap_fee, dev_fund, swap_data_endpoint }
    }
}

/// A registry entry: a created pair, its contract address and liquidity
/// token still unset until the deployed pair announces itself.
#[derive(Debug)]
pub struct PairEntry {
    pub asset_infos: (AssetInfo, AssetInfo),
    pub token_code_hash: String,
    pub contract_addr: Option<String>,
    pub liquidity_token: Option<String>,
}

impl Clone for PairEntry {
    fn clone(&self) -> (r: PairEntry)
        ensures
            r == *self,
    {
        let contract_addr = match &self.contract_addr {
            Some(a) => Some(a.clone()),
            None => None,
        };
        let liquidity_token = match &self.liquidity_token {
            Some(a) => Some(a.clone()),
            None => None,
        };
        PairEntry {
            asset_infos: (self.asset_infos.0.clone(), self.asset_infos.1.clone()),
            token_code_hash: self.token_code_hash.clone(),
            contract_addr,
            liquidity_token,
        }
    }
}

/// Two asset-identity pairs name the same trading pair regardless of order.
pub open spec fn same_pair(a: (AssetInfo, AssetInfo), b: (AssetInfo, AssetInfo)) -> bool {
    (a.0.spec_equal(&b.0) && a.1.spec_equal(&b.1)) || (a.0.spec_equal(&b.1) && a.1.spec_equal(
        &b.0,
    ))
}

fn pairs_match(a: &(AssetInfo, AssetInfo), b: &(AssetInfo, AssetInfo)) -> (r: bool)
    ensures
        r == same_pair(*a, *b),
{
    (a.0.equal(&b.0) && a.1.equal(&b.1)) || (a.0.equal(&b.1) && a.1.equal(&b.0))
}

/// Whether some entry holds the (unordered) pair key.
pub open spec fn contains_pair(pairs: Seq<PairEntry>, key: (AssetInfo, AssetInfo)) -> bool {
    exists|i: int| 0 <= i < pairs.len() && same_pair(pairs[i].asset_infos, key)
}

/// Two identity pairs that name the same trading pair as a common key name
/// the same trading pair as each other.
proof fn lemma_same_pair_common_key(
    a: (AssetInfo, AssetInfo),
    b: (AssetInfo, AssetInfo),
    key: (AssetInfo, AssetInfo),
)
    requires
        same_pair(a, key),
        same_pair(b, key),
    ensures
        same_pair(a, b),
{
}

/// The keyed pair store: at most one entry per unordered asset pair.
#[derive(Debug)]
pub struct Registry {
    pub pairs: Vec<PairEntry>,
}

impl Registry {
    /// No two entries share a key.
    pub open spec fn wf(&self) -> bool {
        forall|i: int, j: int|
            0 <= i < j < self.pairs@.len() ==> !same_pair(
                self.pairs@[i].asset_infos,
                self.pairs@[j].asset_infos,
            )
    }

    pub fn new() -> (r: Registry)
        ensures
            r.pairs@.len() == 0,
            r.wf(),
    {
        Registry { pairs: Vec::new() }
    }

    fn find(&self, key: &(AssetInfo, AssetInfo)) -> (r: Option<usize>)
        ensures
            r is Some ==> 0 <= r->Some_0 < self.pairs@.len() && same_pair(
                self.pairs@[r->Some_0 as int].asset_infos,
                *key,
            ) && (forall|j: int|
                0 <= j < r->Some_0 ==> !same_pair(self.pairs@[j].asset_infos, *key)),
            r is None ==> !contains_pair(self.pairs@, *key),
    {
        let mut i: usize = 0;
        while i < self.pairs.len()
            invariant
                i <= self.pairs@.len(),
                forall|j: int| 0 <= j < i ==> !same_pair(self.pairs@[j].asset_infos, *key),
            decreases self.pairs@.len() - i,
        {
            if pairs_match(&self.pairs[i].asset_infos, key) {
                return Some(i);
            }
            i = i + 1;
        }
        None
    }
}

fn clone_bytes(v: &Vec<u8>) -> (r: Vec<u8>)
    ensures
        r@ == v@,
{
    let mut out: Vec<u8> = Vec::new();
    let mut i: usize = 0;
    while i < v.len()
        invariant
            i <= v@.len(),
            out@ == v@.take(i as int),
        decreases v@.len() - i,
    {
        out.push(v[i]);
        proof {
            assert(out@ =~= v@.take(i as int + 1));
        }
        i = i + 1;
    }
    proof {
        assert(v@.take(v@.len() as int) =~= v@);
    }
    out
}

/// A fresh factory: the caller becomes the owner, the code references are
/// stored, and the default pair settings carry the 0.3% commission.
pub fn init(
    owner: String,
    token_code_id: u64,
    pair_code_id: u64,
    token_code_hash: String,
    pair_code_hash: String,
    prng_seed_hashed: Vec<u8>,
) -> (r: (Config, PairSettings))
    ensures
        r.0.owner == owner,
        r.0.token_code_id == token_code_id,
        r.0.pair_code_id == pair_code_id,
        r.0.token_code_hash == token_code_hash,
        r.0.pair_code_hash == pair_code_hash,
        r.0.prng_seed == prng_seed_hashed,
        r.1.swap_fee == (Fee { commission_rate_nom: 3, commission_rate_denom: 1000 }),
        r.1.dev_fund is None,
        r.1.swap_data_endpoint is None,
{
    let config = Config {
        owner,
        token_code_id,
        pair_code_id,
        token_code_hash,
        pair_code_hash,
        prng_seed: prng_seed_hashed,
    };
    let settings = PairSettings {
        swap_fee: Fee { commission_rate_nom: 3, commission_rate_denom: 1000 },
        dev_fund: None,
        swap_data_endpoint: None,
    };
    (config, settings)
}

/// The owner-gated configuration update: each given field replaces the
/// stored field of the same name, each absent one keeps its stored value.
pub open spec fn spec_update_config(
    config: Config,
    sender: String,
    owner: Option<String>,
    token_code_id: Option<u64>,
    pair_code_id: Option<u64>,
    pair_code_hash: Option<String>,
    token_code_hash: Option<String>,
) -> Result<Config, ContractError> {
    if sender@ != config.owner@ {
        Err(ContractError::Unauthorized)
    } else {
        Ok(
            Config {
                owner: if owner is Some {
                    owner->Some_0
                } else {
                    config.owner
                },
                token_code_id: if token_code_id is Some {
                    token_code_id->Some_0
                } else {
                    config.token_code_id
                },
                pair_code_id: if pair_code_id is Some {
                    pair_code_id->Some_0
                } else {
                    config.pair_code_id
                },
                token_code_hash: if token_code_hash is Some {
                    token_code_hash->Some_0
                } else {
                    config.token_code_hash
                },
                pair_code_hash: if pair_code_hash is Some {
                    pair_code_hash->Some_0
                } else {
                    config.pair_code_hash
                },
                prng_seed: config.prng_seed,
            },
        )
    }
}

/// Update the factory configuration; only the owner may.
pub fn try_update_config(
    config: &Config,
    sender: &String,
    owner: Option<String>,
    token_code_id: Option<u64>,
    pair_code_id: Option<u64>,
    pair_code_hash: Option<String>,
    token_code_hash: Option<String>,
) -> (r: Result<Config, ContractError>)
    ensures
        ({
            let s = spec_update_config(
                *config,
                *sender,
                owner,
                token_code_id,
                pair_code_id,
                pair_code_hash,
                token_code_hash,
            );
            &&& (r is Ok <==> s is Ok)
            &&& (r is Ok ==> r->Ok_0.owner@ == s->Ok_0.owner@ && r->Ok_0.token_code_id
                == s->Ok_0.token_code_id && r->Ok_0.pair_code_id == s->Ok_0.pair_code_id
                && r->Ok_0.token_code_hash@ == s->Ok_0.token_code_hash@
                && r->Ok_0.pair_code_hash@ == s->Ok_0.pair_code_hash@ && r->Ok_0.prng_seed@
                == s->Ok_0.prng_seed@)
            &&& (r is Err ==> r->Err_0 == s->Err_0)
        }),
{
    if !sender.eq(&config.owner) {
        return Err(ContractError::Unauthorized);
    }
    let new_owner = match owner {
        Some(o) => o,
        None => config.owner.clone(),
    };
    let new_token_code_id = match token_code_id {
        Some(v) => v,
        None => config.token_code_id,
    };
    let new_pair_code_id = match pair_code_id {
        Some(v) => v,
        None => config.pair_code_id,
    };
    let new_token_code_hash = match token_code_hash {
        Some(h) => h,
        None => config.token_code_hash.clone(),
    };
    let new_pair_code_hash = match pair_code_hash {
        Some(h) => h,
        None => config.pair_code_hash.clone(),
    };
    Ok(
        Config {
            owner: new_owner,
            token_code_id: new_token_code_id,
            pair_code_id: new_pair_code_id,
            token_code_hash: new_token_code_hash,
            pair_code_hash: new_pair_code_hash,
            prng_seed: clone_bytes(&config.prng_seed),
        },
    )
}

/// Record a new pair under its unordered asset key; anyone may create one,
/// but a key can be registered only once.  The entry starts with no
/// contract address and no liquidity token; deploying the pair contract is
/// the host's work.
pub fn try_create_pair(
    registry: &mut Registry,
    config: &Config,
    asset_infos: (AssetInfo, AssetInfo),
) -> (r: Result<(), ContractError>)
    requires
        old(registry).wf(),
    ensures
        final(registry).wf(),
        r is Ok <==> !contains_pair(old(registry).pairs@, asset_infos),
        r is Err ==> r->Err_0 == ContractError::AlreadyExists && final(registry).pairs@ == old(
            registry,
        ).pairs@,
        r is Ok ==> final(registry).pairs@ == old(registry).pairs@.push(
            PairEntry {
                asset_infos,
                token_code_hash: config.pair_code_hash,
                contract_addr: None,
                liquidity_token: None,
            },
        ),
{
    if let Some(_) = registry.find(&asset_infos) {
        return Err(ContractError::AlreadyExists);
    }
    registry.pairs.push(
        PairEntry {
            asset_infos,
            token_code_hash: config.pair_code_hash.clone(),
            contract_addr: None,
            liquidity_token: None,
        },
    );
    Ok(())
}

/// The deployed pair contract announces itself under its asset key: the
/// entry must exist and must not have been claimed before; the caller
/// becomes the pair's address and the queried liquidity token is recorded.
pub fn try_register(
    registry: &mut Registry,
    sender: &String,
    asset_infos: &(AssetInfo, AssetInfo),
    liquidity_token: String,
) -> (r: Result<(), ContractError>)
    requires
        old(registry).wf(),
    ensures
        final(registry).wf(),
        r is Err ==> final(registry).pairs@ == old(registry).pairs@,
        !contains_pair(old(registry).pairs@, *asset_infos) ==> r == Err::<(), ContractError>(
            ContractError::PairNotFound,
        ),
        r is Ok ==> exists|i: int|
            0 <= i < old(registry).pairs@.len() && same_pair(
                old(registry).pairs@[i].asset_infos,
                *asset_infos,
            ) && old(registry).pairs@[i].contract_addr is None && final(registry).pairs@ == old(
                registry,
            ).pairs@.update(
                i,
                PairEntry {
                    asset_infos: old(registry).pairs@[i].asset_infos,
                    token_code_hash: old(registry).pairs@[i].token_code_hash,
                    contract_addr: Some(*sender),
                    liquidity_token: Some(liquidity_token),
                },
            ),
        contains_pair(old(registry).pairs@, *asset_infos) && (forall|i: int|
            0 <= i < old(registry).pairs@.len() && same_pair(
                old(registry).pairs@[i].asset_infos,
                *asset_infos,
            ) ==> old(registry).pairs@[i].contract_addr is Some) ==> r == Err::<(), ContractError>(
            ContractError::AlreadyRegistered,
        ),
        (exists|i: int|
            0 <= i < old(registry).pairs@.len() && same_pair(
                old(registry).pairs@[i].asset_infos,
                *asset_infos,
            ) && old(registry).pairs@[i].contract_addr is None) ==> r is Ok,
{
    let idx = match registry.find(asset_infos) {
        Some(i) => i,
        None => {
            return Err(ContractError::PairNotFound);
        },
    };
    if registry.pairs[idx].contract_addr.is_some() {
        proof {
            // the found entry is claimed, and by the registry's invariant it
            // is the only entry under this key, so no unclaimed match exists
            assert forall|j: int|
                0 <= j < registry.pairs@.len() && same_pair(
                    registry.pairs@[j].asset_infos,
                    *asset_infos,
                ) implies registry.pairs@[j].contract_addr is Some by {
                if j != idx {
                    lemma_same_pair_common_key(
                        registry.pairs@[j].asset_infos,
                        registry.pairs@[idx as int].asset_infos,
                        *asset_infos,
                    );
                    if j < idx {
                        assert(!same_pair(
                            registry.pairs@[j].asset_infos,
                            registry.pairs@[idx as int].asset_infos,
                        ));
                    } else {
                        lemma_same_pair_common_key(
                            registry.pairs@[idx as int].asset_infos,
                            registry.pairs@[j].asset_infos,
                            *asset_infos,
                        );
                        assert(!same_pair(
                            registry.pairs@[idx as int].asset_infos,
                            registry.pairs@[j].asset_infos,
                        ));
                    }
                }
            }
        }
        return Err(ContractError::AlreadyRegistered);
    }
    let entry = PairEntry {
        asset_infos: (
            registry.pairs[idx].asset_infos.0.clone(),
            registry.pairs[idx].asset_infos.1.clone(),
        ),
        token_code_hash: registry.pairs[idx].token_code_hash.clone(),
        contract_addr: Some(sender.clone()),
        liquidity_token: Some(liquidity_token),
    };
    registry.pairs[idx] = entry;
    Ok(())
}

/// The owner-gated settings update: a given fee replaces the stored one;
/// the development fund and the data endpoint are replaced by the given
/// values outright, clearing them when absent.
pub fn try_update_pair_settings(
    config: &Config,
    settings: &PairSettings,
    sender: &String,
    swap_fee: Option<Fee>,
    dev_fund: Option<DevFund>,
    swap_data_endpoint: Option<CallableContract>,
) -> (r: Result<PairSettings, ContractError>)
    ensures
        r is Ok <==> sender@ == config.owner@,
        r is Err ==> r->Err_0 == ContractError::Unauthorized,
        r is Ok ==> r->Ok_0.swap_fee == (if swap_fee is Some {
            swap_fee->Some_0
        } else {
            settings.swap_fee
        }),
        r is Ok ==> r->Ok_0.dev_fund == dev_fund && r->Ok_0.swap_data_endpoint
            == swap_data_endpoint,
{
    if !sender.eq(&config.owner) {
        return Err(ContractError::Unauthorized);
    }
    let new_fee = match swap_fee {
        Some(f) => f,
        None => settings.swap_fee,
    };
    Ok(PairSettings { swap_fee: new_fee, dev_fund, swap_data_endpoint })
}

/// The configuration, as a query reports it.
#[derive(Debug)]
pub struct ConfigResponse {
    pub owner: String,
    pub token_code_id: u64,
    pub pair_code_id: u64,
}

/// The stored configuration's public part.
pub fn query_config(config: &Config) -> (r: ConfigResponse)
    ensures
        r.owner == config.owner,
        r.token_code_id == config.token_code_id,
        r.pair_code_id == config.pair_code_id,
{
    ConfigResponse {
        owner: config.owner.clone(),
        token_code_id: config.token_code_id,
        pair_code_id: config.pair_code_id,
    }
}

/// The registry entry under an unordered asset key.
pub fn query_pair(registry: &Registry, asset_infos: &(AssetInfo, AssetInfo)) -> (r: Result<
    PairEntry,
    ContractError,
>)
    ensures
        r is Ok <==> contains_pair(registry.pairs@, *asset_infos),
        r is Err ==> r->Err_0 == ContractError::PairNotFound,
        r is Ok ==> exists|i: int|
            0 <= i < registry.pairs@.len() && same_pair(
                registry.pairs@[i].asset_infos,
                *asset_infos,
            ) && r->Ok_0 == registry.pairs@[i],
{
    match registry.find(asset_infos) {
        Some(i) => Ok(registry.pairs[i].clone()),
        None => Err(ContractError::PairNotFound),
    }
}

/// A page of the registry, in the order the pairs were recorded: the
/// entries after `start_after` (exclusive; none when that key is unknown),
/// at most `limit` of them (10 when unspecified, 30 at most).
pub fn query_pairs(
    registry: &Registry,
    start_after: Option<(AssetInfo, AssetInfo)>,
    limit: Option<u32>,
) -> (r: Vec<PairEntry>)
    ensures
        ({
            let pairs = registry.pairs@;
            let lim: int = if limit is Some {
                if limit->Some_0 > 30 {
                    30
                } else {
                    limit->Some_0 as int
                }
            } else {
                10
            };
            match start_after {
                Option::None => r@ == pairs.subrange(
                    0,
                    if lim <= pairs.len() {
                        lim
                    } else {
                        pairs.len() as int
                    },
                ),
                Option::Some(key) => {
                    if !contains_pair(pairs, key) {
                        r@.len() == 0
                    } else {
                        exists|i: int|
                            0 <= i < pairs.len() && same_pair(pairs[i].asset_infos, key) && (
                            forall|j: int|
                                0 <= j < i ==> !same_pair(pairs[j].asset_infos, key)) && r@
                                == pairs.subrange(
                                i + 1,
                                if i + 1 + lim <= pairs.len() {
                                    i + 1 + lim
                                } else {
                                    pairs.len() as int
                                },
                            )
                    }
                },
            }
        }),
{
    let lim: usize = match limit {
        Some(l) => if l > 30 {
            30
        } else {
            l as usize
        },
        None => 10,
    };
    let total = registry.pairs.len();
    let begin: usize = match &start_after {
        None => 0,
        Some(key) => match registry.find(key) {
            Some(i) => if i < total {
                i + 1
            } else {
                total
            },
            None => total,
        },
    };
    let mut out: Vec<PairEntry> = Vec::new();
    let mut i: usize = begin;
    proof {
        assert(registry.pairs@.subrange(begin as int, begin as int) =~= out@);
    }
    while i < registry.pairs.len() && out.len() < lim
        invariant
            begin <= i <= registry.pairs@.len(),
            out@ == registry.pairs@.subrange(begin as int, i as int),
            i - begin <= lim,
        decreases registry.pairs@.len() - i,
    {
        out.push(registry.pairs[i].clone());
        proof {
            assert(registry.pairs@.subrange(begin as int, i as int + 1) =~= registry.pairs@
                .subrange(begin as int, i as int).push(registry.pairs@[i as int]));
        }
        i = i + 1;
    }
    out
}

/// The stored settings.
pub fn query_pair_settings(settings: &PairSettings) -> (r: PairSettings)
    ensures
        r == *settings,
{
    settings.clone()
}

} // verus!
