use vstd::prelude::*;

use crate::errors::ContractError;

verus! {

/// The identity of a pooled or offered asset: either a native currency
/// denomination or a deployed token contract.
#[derive(Debug)]
pub enum AssetInfo {
    Token { contract_addr: String, token_code_hash: String, viewing_key: String },
    NativeToken { denom: String },
}

impl AssetInfo {
    /// Structural identity: two token assets are the same when their contract
    /// addresses agree (code hash and viewing key are credentials, not
    /// identity); two native assets are the same when their denominations
    /// agree.  A token is never the same asset as a native currency.
    pub open spec fn spec_equal(&self, other: &AssetInfo) -> bool {
        match (self, other) {
            (
                AssetInfo::Token { contract_addr: a, .. },
                AssetInfo::Token { contract_addr: b, .. },
            ) => a@ == b@,
            (AssetInfo::NativeToken { denom: a }, AssetInfo::NativeToken { denom: b }) => a@
                == b@,
            _ => false,
        }
    }

    pub fn equal(&self, other: &AssetInfo) -> (r: bool)
        ensures
            r == self.spec_equal(other),
    {
        match (self, other) {
            (
                AssetInfo::Token { contract_addr: a, .. },
                AssetInfo::Token { contract_addr: b, .. },
            ) => a.eq(b),
            (AssetInfo::NativeToken { denom: a }, AssetInfo::NativeToken { denom: b }) => a.eq(b),
            _ => false,
        }
    }

    pub fn is_native_token(&self) -> (r: bool)
        ensures
            r == (self is NativeToken),
    {
        match self {
            AssetInfo::NativeToken { .. } => true,
            AssetInfo::Token { .. } => false,
        }
    }
}

impl Clone for AssetInfo {
    fn clone(&self) -> (r: AssetInfo)
        ensures
            r == *self,
    {
        match self {
            AssetInfo::Token { contract_addr, token_code_hash, viewing_key } => AssetInfo::Token {
                contract_addr: contract_addr.clone(),
                token_code_hash: token_code_hash.clone(),
                viewing_key: viewing_key.clone(),
            },
            AssetInfo::NativeToken { denom } => AssetInfo::NativeToken { denom: denom.clone() },
        }
    }
}

/// An asset identity together with an amount of it.
#[derive(Debug)]
pub struct Asset {
    pub info: AssetInfo,
    pub amount: u128,
}

impl Clone for Asset {
    fn clone(&self) -> (r: Asset)
        ensures
            r == *self,
    {
        Asset { info: self.info.clone(), amount: self.amount }
    }
}

/// A native coin attached to an incoming call.
#[derive(Debug)]
pub struct Coin {
    pub denom: String,
    pub amount: u128,
}

impl Clone for Coin {
    fn clone(&self) -> (r: Coin)
        ensures
            r == *self,
    {
        Coin { denom: self.denom.clone(), amount: self.amount }
    }
}

/// The amount of the first coin of the given denomination, zero when none of
/// the coins carries it.
pub open spec fn spec_amount_of(coins: Seq<Coin>, denom: Seq<char>) -> int
    decreases coins.len(),
{
    if coins.len() == 0 {
        0
    } else if coins[0].denom@ == denom {
        coins[0].amount as int
    } else {
        spec_amount_of(coins.skip(1), denom)
    }
}

pub fn amount_of(coins: &[Coin], denom: String) -> (r: u128)
    ensures
        r == spec_amount_of(coins@, denom@),
{
    let mut i: usize = 0;
    proof {
        assert(coins@.skip(0) =~= coins@);
    }
    while i < coins.len()
        invariant
            i <= coins@.len(),
            spec_amount_of(coins@, denom@) == spec_amount_of(coins@.skip(i as int), denom@),
        decreases coins@.len() - i,
    {
        let c = &coins[i];
        proof {
            assert(coins@.skip(i as int)[0] == coins@[i as int]);
            assert(coins@.skip(i as int).skip(1) =~= coins@.skip(i as int + 1));
        }
        if c.denom == denom {
            return c.amount;
        }
        i = i + 1;
    }
    proof {
        assert(coins@.skip(i as int).len() == 0);
    }
    0
}

/// The guard on a declared native deposit: the funds that accompany the call
/// must carry exactly the declared amount of the declared denomination.  A
/// token asset needs no such guard, its funds are pulled explicitly.
pub open spec fn sent_native_balance_ok(asset: &Asset, sent_funds: Seq<Coin>) -> bool {
    match asset.info {
        AssetInfo::NativeToken { denom } => spec_amount_of(sent_funds, denom@) == asset.amount,
        AssetInfo::Token { .. } => true,
    }
}

pub fn assert_sent_native_token_balance(asset: &Asset, sent_funds: &[Coin]) -> (r: Result<
    (),
    ContractError,
>)
    ensures
        r is Ok <==> sent_native_balance_ok(asset, sent_funds@),
        r is Err ==> r->Err_0 == ContractError::NativeBalanceMismatch,
{
    match &asset.info {
        AssetInfo::NativeToken { denom } => {
            let sent = amount_of(sent_funds, denom.clone());
            if sent == asset.amount {
                Ok(())
            } else {
                Err(ContractError::NativeBalanceMismatch)
            }
        },
        AssetInfo::Token { .. } => Ok(()),
    }
}

} // verus!
