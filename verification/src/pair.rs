use vstd::prelude::*;

use crate::asset::{
    assert_sent_native_token_balance, sent_native_balance_ok, Asset, AssetInfo, Coin,
};
use crate::decimal::Decimal;
use crate::errors::ContractError;
use crate::pricing::{
    compute_offer_amount, compute_swap, compute_share, compute_refund, assert_max_spread,
    assert_slippage_tolerance, inflated_ask, inv_one_minus_commission_atomics, minted_share,
    refund_amount, refund_in_range, reverse_commission, reverse_in_range, reverse_offer_amount,
    reverse_spread, share_in_range, spec_assert_max_spread, spec_assert_slippage_tolerance,
    swap_commission, swap_in_range, swap_return, swap_spread, ReverseQuote, SwapQuote,
};

verus! {

/// The persistent state of a pair contract: the identities of its two pooled
/// assets and, once the deployed liquidity token has announced itself, that
/// token's address.  Reserve balances and the share supply are never part of
/// this state; they are queried fresh on every call.
#[derive(Debug)]
pub struct PairState {
    pub asset_infos: (AssetInfo, AssetInfo),
    pub token_code_hash: String,
    pub liquidity_token: Option<String>,
}

impl Clone for PairState {
    fn clone(&self) -> (r: PairState)
        ensures
            r == *self,
    {
        let liquidity_token = match &self.liquidity_token {
            Some(addr) => Some(addr.clone()),
            None => None,
        };
        PairState {
            asset_infos: (self.asset_infos.0.clone(), self.asset_infos.1.clone()),
            token_code_hash: self.token_code_hash.clone(),
            liquidity_token,
        }
    }
}

/// The live view of the pair's ledger, queried at the start of a call: both
/// pool balances (as the ledger holds them, so a deposit that accompanied
/// the call is already included) and the liquidity-token supply.
#[derive(Debug)]
pub struct LedgerSnapshot {
    pub pool_0: Asset,
    pub pool_1: Asset,
    pub total_share: u128,
}

/// Who called, what native funds accompanied the call, and the pair's own
/// address (the recipient of pulled token deposits).
#[derive(Debug)]
pub struct CallInfo {
    pub sender: String,
    pub sent_funds: Vec<Coin>,
    pub pair_address: String,
}

/// An outbound balance-mutating instruction, returned for the host to
/// execute after the call commits.  A call that errors emits nothing.
#[derive(Debug)]
pub enum Instruction {
    /// Move `amount` of the asset from the pair to `recipient`.
    Transfer { asset_info: AssetInfo, recipient: String, amount: u128 },
    /// Pull `amount` of a token asset from `owner` to `recipient`.
    TransferFrom { asset_info: AssetInfo, owner: String, recipient: String, amount: u128 },
    /// Mint `amount` liquidity tokens to `recipient`.
    Mint { recipient: String, amount: u128 },
    /// Burn `amount` liquidity tokens that were sent to the pair.
    Burn { amount: u128 },
}

/// A request to a pair contract.
#[derive(Debug)]
pub enum HandleMsg {
    /// A token contract notifies the pair of a received transfer carrying an
    /// embedded request.
    Receive { from: String, amount: u128, msg: Option<Cw20HookMsg> },
    /// The deployed liquidity token announces itself, exactly once.
    PostInitialize,
    /// Deposit both assets and mint liquidity shares.
    ProvideLiquidity { assets: (Asset, Asset), slippage_tolerance: Option<Decimal> },
    /// Trade a native offer against the pool.
    Swap {
        offer_asset: Asset,
        expected_return: Option<u128>,
        belief_price: Option<Decimal>,
        max_spread: Option<Decimal>,
        to: Option<String>,
    },
}

/// The request embedded in a token-transfer notification.
#[derive(Debug)]
pub enum Cw20HookMsg {
    /// Trade the transferred tokens against the pool.
    Swap {
        expected_return: Option<u128>,
        belief_price: Option<Decimal>,
        max_spread: Option<Decimal>,
        to: Option<String>,
    },
    /// Burn the transferred liquidity tokens and refund both assets.
    WithdrawLiquidity,
}

/// What a successful call hands back to the host: the state to persist and
/// the instructions to execute.
#[derive(Debug)]
pub struct HandleOutcome {
    pub new_state: PairState,
    pub instructions: Vec<Instruction>,
}

/// A fresh pair: asset identities fixed, no liquidity token yet.
pub fn init(asset_infos: (AssetInfo, AssetInfo), token_code_hash: String) -> (s: PairState)
    ensures
        s.asset_infos == asset_infos,
        s.token_code_hash == token_code_hash,
        s.liquidity_token is None,
{
    PairState { asset_infos, token_code_hash, liquidity_token: None }
}

/// The one-time transition from uninitialized to initialized.
pub open spec fn spec_post_initialize(state: PairState, sender: String) -> Result<
    PairState,
    ContractError,
> {
    if state.liquidity_token is Some {
        Err(ContractError::Unauthorized)
    } else {
        Ok(
            PairState {
                asset_infos: state.asset_infos,
                token_code_hash: state.token_code_hash,
                liquidity_token: Some(sender),
            },
        )
    }
}

/// The deployed liquidity-token contract announces itself.  This is the only
/// state transition of a pair: it succeeds exactly once, while no liquidity
/// token is set, and records the caller as that token.
pub fn try_post_initialize(state: &PairState, sender: String) -> (r: Result<
    PairState,
    ContractError,
>)
    ensures
        r == spec_post_initialize(*state, sender),
{
    if state.liquidity_token.is_some() {
        return Err(ContractError::Unauthorized);
    }
    Ok(
        PairState {
            asset_infos: (state.asset_infos.0.clone(), state.asset_infos.1.clone()),
            token_code_hash: state.token_code_hash.clone(),
            liquidity_token: Some(sender),
        },
    )
}

/// Post-initialization is not repeatable: whatever state it succeeds on, a
/// second announcement against the resulting state fails with Unauthorized.
pub proof fn lemma_post_initialize_once(
    state: PairState,
    first_sender: String,
    second_sender: String,
)
    requires
        spec_post_initialize(state, first_sender) is Ok,
    ensures
        spec_post_initialize(
            spec_post_initialize(state, first_sender)->Ok_0,
            second_sender,
        ) == Err::<PairState, ContractError>(ContractError::Unauthorized),
{
}

/// Where a swap pays out: to the explicit recipient, else back to the
/// sender.
pub open spec fn swap_recipient(sender: String, to: Option<String>) -> String {
    if to is Some {
        to->Some_0
    } else {
        sender
    }
}

/// One leg of a swap once the offer side is matched: the raw matched
/// balance minus the already-credited offer is the pre-trade offer reserve;
/// the quote is computed on it and the spread guard applied; on success a
/// single transfer of the net return is emitted.
pub open spec fn spec_swap_leg(
    offer_pool_raw: int,
    ask_pool: Asset,
    offer_amount: int,
    expected_return: Option<u128>,
    belief_price: Option<Decimal>,
    max_spread: Option<Decimal>,
    recipient: String,
) -> Result<(Instruction, SwapQuote), ContractError> {
    let op = offer_pool_raw - offer_amount;
    let ap = ask_pool.amount as int;
    if op < 0 {
        Err(ContractError::ArithmeticError)
    } else if !swap_in_range(op, ap, offer_amount) {
        Err(ContractError::ArithmeticError)
    } else {
        let quote = SwapQuote {
            return_amount: swap_return(op, ap, offer_amount) as u128,
            spread_amount: swap_spread(op, ap, offer_amount) as u128,
            commission_amount: swap_commission(op, ap, offer_amount) as u128,
        };
        match spec_assert_max_spread(
            belief_price,
            max_spread,
            expected_return,
            offer_amount,
            swap_return(op, ap, offer_amount),
            swap_commission(op, ap, offer_amount),
            swap_spread(op, ap, offer_amount),
        ) {
            Err(e) => Err(e),
            Ok(_) => Ok(
                (
                    Instruction::Transfer {
                        asset_info: ask_pool.info,
                        recipient,
                        amount: swap_return(op, ap, offer_amount) as u128,
                    },
                    quote,
                ),
            ),
        }
    }
}

/// The outcome of a swap request: the offer must be accompanied by its
/// native funds, must match one of the two pool slots, and the quote must
/// pass the spread guard; then the net return is transferred.
pub open spec fn spec_try_swap(
    pool_0: Asset,
    pool_1: Asset,
    offer_asset: Asset,
    expected_return: Option<u128>,
    belief_price: Option<Decimal>,
    max_spread: Option<Decimal>,
    sender: String,
    to: Option<String>,
    sent_funds: Seq<Coin>,
) -> Result<(Instruction, SwapQuote), ContractError> {
    if !sent_native_balance_ok(&offer_asset, sent_funds) {
        Err(ContractError::NativeBalanceMismatch)
    } else if offer_asset.info.spec_equal(&pool_0.info) {
        spec_swap_leg(
            pool_0.amount as int,
            pool_1,
            offer_asset.amount as int,
            expected_return,
            belief_price,
            max_spread,
            swap_recipient(sender, to),
        )
    } else if offer_asset.info.spec_equal(&pool_1.info) {
        spec_swap_leg(
            pool_1.amount as int,
            pool_0,
            offer_asset.amount as int,
            expected_return,
            belief_price,
            max_spread,
            swap_recipient(sender, to),
        )
    } else {
        Err(ContractError::InvalidAsset)
    }
}

fn swap_leg(
    offer_pool_raw: u128,
    ask_pool: &Asset,
    offer_amount: u128,
    expected_return: Option<u128>,
    belief_price: Option<Decimal>,
    max_spread: Option<Decimal>,
    recipient: String,
) -> (r: Result<(Instruction, SwapQuote), ContractError>)
    ensures
        r == spec_swap_leg(
            offer_pool_raw as int,
            *ask_pool,
            offer_amount as int,
            expected_return,
            belief_price,
            max_spread,
            recipient,
        ),
{
    let offer_pool = match offer_pool_raw.checked_sub(offer_amount) {
        Some(v) => v,
        None => {
            return Err(ContractError::ArithmeticError);
        },
    };
    let quote = match compute_swap(offer_pool, ask_pool.amount, offer_amount) {
        Ok(q) => q,
        Err(e) => {
            return Err(e);
        },
    };
    match assert_max_spread(
        belief_price,
        max_spread,
        expected_return,
        offer_amount,
        quote.return_amount,
        quote.commission_amount,
        quote.spread_amount,
    ) {
        Ok(_) => {},
        Err(e) => {
            return Err(e);
        },
    }
    Ok(
        (
            Instruction::Transfer {
                asset_info: ask_pool.info.clone(),
                recipient,
                amount: quote.return_amount,
            },
            quote,
        ),
    )
}

/// Execute a swap of `offer_asset` against the pool.  The snapshot balances
/// are the ledger's current ones, so the credited offer is subtracted from
/// the matched slot before pricing.  On success, the single emitted
/// instruction transfers the net return to the recipient.
pub fn try_swap(
    pool_0: &Asset,
    pool_1: &Asset,
    offer_asset: &Asset,
    expected_return: Option<u128>,
    belief_price: Option<Decimal>,
    max_spread: Option<Decimal>,
    sender: String,
    to: Option<String>,
    sent_funds: &[Coin],
) -> (r: Result<(Instruction, SwapQuote), ContractError>)
    ensures
        r == spec_try_swap(
            *pool_0,
            *pool_1,
            *offer_asset,
            expected_return,
            belief_price,
            max_spread,
            sender,
            to,
            sent_funds@,
        ),
{
    if let Err(e) = assert_sent_native_token_balance(offer_asset, sent_funds) {
        return Err(e);
    }
    let recipient = match to {
        Some(t) => t,
        None => sender,
    };
    if offer_asset.info.equal(&pool_0.info) {
        swap_leg(
            pool_0.amount,
            pool_1,
            offer_asset.amount,
            expected_return,
            belief_price,
            max_spread,
            recipient,
        )
    } else if offer_asset.info.equal(&pool_1.info) {
        swap_leg(
            pool_1.amount,
            pool_0,
            offer_asset.amount,
            expected_return,
            belief_price,
            max_spread,
            recipient,
        )
    } else {
        Err(ContractError::InvalidAsset)
    }
}

/// The deposit among the two supplied assets whose identity matches `info`,
/// the first of them when both match.
pub open spec fn deposit_for(assets: (Asset, Asset), info: AssetInfo) -> Option<int> {
    if assets.0.info.spec_equal(&info) {
        Some(assets.0.amount as int)
    } else if assets.1.info.spec_equal(&info) {
        Some(assets.1.amount as int)
    } else {
        None
    }
}

/// The pre-deposit reserve of one pool slot: a native deposit is already in
/// the queried balance and is subtracted back out; a token deposit is only
/// pulled by an instruction, so the balance is already the pre-deposit one.
pub open spec fn adjusted_pool(pool: Asset, deposit: int) -> int {
    if pool.info is Token {
        pool.amount as int
    } else {
        pool.amount - deposit
    }
}

/// The outcome of providing liquidity: native deposits must accompany the
/// call, both supplied assets must match the pool slots, the price guard
/// must pass on pre-deposit reserves, and the minted share is the
/// first-deposit square root or the minimum deposit-to-reserve ratio.
/// Token deposits are pulled by TransferFrom instructions; the mint comes
/// last.
pub open spec fn spec_provide_liquidity(
    pool_0: Asset,
    pool_1: Asset,
    total_share: int,
    assets: (Asset, Asset),
    slippage_tolerance: Option<Decimal>,
    sender: String,
    pair_address: String,
    sent_funds: Seq<Coin>,
) -> Result<(Seq<Instruction>, int), ContractError> {
    if !sent_native_balance_ok(&assets.0, sent_funds) {
        Err(ContractError::NativeBalanceMismatch)
    } else if !sent_native_balance_ok(&assets.1, sent_funds) {
        Err(ContractError::NativeBalanceMismatch)
    } else if deposit_for(assets, pool_0.info) is None || deposit_for(assets, pool_1.info) is None {
        Err(ContractError::InvalidAsset)
    } else {
        let d0 = deposit_for(assets, pool_0.info)->Some_0;
        let d1 = deposit_for(assets, pool_1.info)->Some_0;
        if pool_0.info is NativeToken && pool_0.amount < d0 {
            Err(ContractError::ArithmeticError)
        } else if pool_1.info is NativeToken && pool_1.amount < d1 {
            Err(ContractError::ArithmeticError)
        } else {
            let p0 = adjusted_pool(pool_0, d0);
            let p1 = adjusted_pool(pool_1, d1);
            match spec_assert_slippage_tolerance(slippage_tolerance, d0, d1, p0, p1) {
                Err(e) => Err(e),
                Ok(_) => {
                    if !share_in_range(total_share, d0, d1, p0, p1) {
                        Err(ContractError::ArithmeticError)
                    } else {
                        let share = minted_share(total_share, d0, d1, p0, p1);
                        let pulls = (if pool_0.info is Token {
                            seq![
                                Instruction::TransferFrom {
                                    asset_info: pool_0.info,
                                    owner: sender,
                                    recipient: pair_address,
                                    amount: d0 as u128,
                                },
                            ]
                        } else {
                            Seq::<Instruction>::empty()
                        }) + (if pool_1.info is Token {
                            seq![
                                Instruction::TransferFrom {
                                    asset_info: pool_1.info,
                                    owner: sender,
                                    recipient: pair_address,
                                    amount: d1 as u128,
                                },
                            ]
                        } else {
                            Seq::<Instruction>::empty()
                        });
                        Ok(
                            (
                                pulls + seq![
                                    Instruction::Mint { recipient: sender, amount: share as u128 },
                                ],
                                share,
                            ),
                        )
                    }
                },
            }
        }
    }
}

/// Deposit both assets into the pool and mint the corresponding liquidity
/// share to the sender.  The returned instructions pull the token deposits
/// and mint the share; the second component is the minted share itself.
pub fn try_provide_liquidity(
    pool_0: &Asset,
    pool_1: &Asset,
    total_share: u128,
    assets: &(Asset, Asset),
    slippage_tolerance: Option<Decimal>,
    sender: String,
    pair_address: String,
    sent_funds: &[Coin],
) -> (r: Result<(Vec<Instruction>, u128), ContractError>)
    ensures
        ({
            let s = spec_provide_liquidity(
                *pool_0,
                *pool_1,
                total_share as int,
                *assets,
                slippage_tolerance,
                sender,
                pair_address,
                sent_funds@,
            );
            &&& (r is Ok <==> s is Ok)
            &&& (r is Ok ==> r->Ok_0.0@ == s->Ok_0.0 && r->Ok_0.1 == s->Ok_0.1)
            &&& (r is Err ==> r->Err_0 == s->Err_0)
        }),
{
    if let Err(e) = assert_sent_native_token_balance(&assets.0, sent_funds) {
        return Err(e);
    }
    if let Err(e) = assert_sent_native_token_balance(&assets.1, sent_funds) {
        return Err(e);
    }
    let deposit_0 = if assets.0.info.equal(&pool_0.info) {
        assets.0.amount
    } else if assets.1.info.equal(&pool_0.info) {
        assets.1.amount
    } else {
        return Err(ContractError::InvalidAsset);
    };
    let deposit_1 = if assets.0.info.equal(&pool_1.info) {
        assets.0.amount
    } else if assets.1.info.equal(&pool_1.info) {
        assets.1.amount
    } else {
        return Err(ContractError::InvalidAsset);
    };
    let mut instructions: Vec<Instruction> = Vec::new();
    let adjusted_0 = if pool_0.info.is_native_token() {
        match pool_0.amount.checked_sub(deposit_0) {
            Some(v) => v,
            None => {
                return Err(ContractError::ArithmeticError);
            },
        }
    } else {
        instructions.push(
            Instruction::TransferFrom {
                asset_info: pool_0.info.clone(),
                owner: sender.clone(),
                recipient: pair_address.clone(),
                amount: deposit_0,
            },
        );
        pool_0.amount
    };
    let adjusted_1 = if pool_1.info.is_native_token() {
        match pool_1.amount.checked_sub(deposit_1) {
            Some(v) => v,
            None => {
                return Err(ContractError::ArithmeticError);
            },
        }
    } else {
        instructions.push(
            Instruction::TransferFrom {
                asset_info: pool_1.info.clone(),
                owner: sender.clone(),
                recipient: pair_address.clone(),
                amount: deposit_1,
            },
        );
        pool_1.amount
    };
    if let Err(e) = assert_slippage_tolerance(
        slippage_tolerance,
        deposit_0,
        deposit_1,
        adjusted_0,
        adjusted_1,
    ) {
        return Err(e);
    }
    let share = match compute_share(total_share, deposit_0, deposit_1, adjusted_0, adjusted_1) {
        Ok(v) => v,
        Err(e) => {
            return Err(e);
        },
    };
    instructions.push(Instruction::Mint { recipient: sender.clone(), amount: share });
    proof {
        assert(instructions@ =~= spec_provide_liquidity(
            *pool_0,
            *pool_1,
            total_share as int,
            *assets,
            slippage_tolerance,
            sender,
            pair_address,
            sent_funds@,
        )->Ok_0.0);
    }
    Ok((instructions, share))
}

/// The outcome of a withdrawal: each reserve refunded in proportion to the
/// burnt share (fixed-point ratio, rounded down), then the share burnt.
pub open spec fn spec_withdraw_liquidity(
    pool_0: Asset,
    pool_1: Asset,
    total_share: int,
    sender: String,
    amount: int,
) -> Result<Seq<Instruction>, ContractError> {
    if !refund_in_range(pool_0.amount as int, amount, total_share) {
        Err(ContractError::ArithmeticError)
    } else if !refund_in_range(pool_1.amount as int, amount, total_share) {
        Err(ContractError::ArithmeticError)
    } else {
        Ok(
            seq![
                Instruction::Transfer {
                    asset_info: pool_0.info,
                    recipient: sender,
                    amount: refund_amount(pool_0.amount as int, amount, total_share) as u128,
                },
                Instruction::Transfer {
                    asset_info: pool_1.info,
                    recipient: sender,
                    amount: refund_amount(pool_1.amount as int, amount, total_share) as u128,
                },
                Instruction::Burn { amount: amount as u128 },
            ],
        )
    }
}

/// Burn `amount` previously sent liquidity tokens and refund the sender's
/// proportional part of both reserves.
pub fn try_withdraw_liquidity(
    pool_0: &Asset,
    pool_1: &Asset,
    total_share: u128,
    sender: String,
    amount: u128,
) -> (r: Result<Vec<Instruction>, ContractError>)
    ensures
        r is Ok <==> spec_withdraw_liquidity(
            *pool_0,
            *pool_1,
            total_share as int,
            sender,
            amount as int,
        ) is Ok,
        r is Ok ==> r->Ok_0@ == spec_withdraw_liquidity(
            *pool_0,
            *pool_1,
            total_share as int,
            sender,
            amount as int,
        )->Ok_0,
        r is Err ==> r->Err_0 == ContractError::ArithmeticError,
{
    let refund_0 = match compute_refund(pool_0.amount, amount, total_share) {
        Ok(v) => v,
        Err(e) => {
            return Err(e);
        },
    };
    let refund_1 = match compute_refund(pool_1.amount, amount, total_share) {
        Ok(v) => v,
        Err(e) => {
            return Err(e);
        },
    };
    let mut instructions: Vec<Instruction> = Vec::new();
    instructions.push(
        Instruction::Transfer {
            asset_info: pool_0.info.clone(),
            recipient: sender.clone(),
            amount: refund_0,
        },
    );
    instructions.push(
        Instruction::Transfer {
            asset_info: pool_1.info.clone(),
            recipient: sender.clone(),
            amount: refund_1,
        },
    );
    instructions.push(Instruction::Burn { amount });
    proof {
        assert(instructions@ =~= spec_withdraw_liquidity(
            *pool_0,
            *pool_1,
            total_share as int,
            sender,
            amount as int,
        )->Ok_0);
    }
    Ok(instructions)
}

/// Whether `info` is a token asset deployed at `addr`.
pub open spec fn token_matches(info: AssetInfo, addr: String) -> bool {
    info matches AssetInfo::Token { contract_addr, .. } && contract_addr@ == addr@
}

fn is_token_at(info: &AssetInfo, addr: &String) -> (r: bool)
    ensures
        r == token_matches(*info, *addr),
{
    match info {
        AssetInfo::Token { contract_addr, .. } => contract_addr.eq(addr),
        AssetInfo::NativeToken { .. } => false,
    }
}

/// The outcome of a token-transfer notification.  A swap hook is honoured
/// only when the notifying contract is one of the two pooled tokens; a
/// withdrawal hook only when it is the registered liquidity token.  The
/// transferred amount plays the offer (or the burnt share), and `from`, the
/// original holder, is the default recipient.
pub open spec fn spec_receive_cw20(
    state: PairState,
    pool_0: Asset,
    pool_1: Asset,
    total_share: int,
    token_contract: String,
    from: String,
    amount: int,
    msg: Option<Cw20HookMsg>,
    sent_funds: Seq<Coin>,
) -> Result<Seq<Instruction>, ContractError> {
    if msg is None {
        Err(ContractError::MissingData)
    } else {
        match msg->Some_0 {
            Cw20HookMsg::Swap { expected_return, belief_price, max_spread, to } => {
                if token_matches(pool_0.info, token_contract) {
                    match spec_swap_leg(
                        pool_0.amount as int,
                        pool_1,
                        amount,
                        expected_return,
                        belief_price,
                        max_spread,
                        swap_recipient(from, to),
                    ) {
                        Ok(leg) => Ok(seq![leg.0]),
                        Err(e) => Err(e),
                    }
                } else if token_matches(pool_1.info, token_contract) {
                    match spec_swap_leg(
                        pool_1.amount as int,
                        pool_0,
                        amount,
                        expected_return,
                        belief_price,
                        max_spread,
                        swap_recipient(from, to),
                    ) {
                        Ok(leg) => Ok(seq![leg.0]),
                        Err(e) => Err(e),
                    }
                } else {
                    Err(ContractError::Unauthorized)
                }
            },
            Cw20HookMsg::WithdrawLiquidity => {
                if state.liquidity_token matches Some(lt) && lt@ == token_contract@ {
                    spec_withdraw_liquidity(pool_0, pool_1, total_share, from, amount)
                } else {
                    Err(ContractError::Unauthorized)
                }
            },
        }
    }
}

/// Act on a token-transfer notification: `token_contract` is the notifying
/// contract (the call's sender), `from` the holder whose tokens arrived.
pub fn receive_cw20(
    state: &PairState,
    pool_0: &Asset,
    pool_1: &Asset,
    total_share: u128,
    token_contract: String,
    from: String,
    amount: u128,
    msg: Option<Cw20HookMsg>,
    sent_funds: &[Coin],
) -> (r: Result<Vec<Instruction>, ContractError>)
    ensures
        ({
            let s = spec_receive_cw20(
                *state,
                *pool_0,
                *pool_1,
                total_share as int,
                token_contract,
                from,
                amount as int,
                msg,
                sent_funds@,
            );
            &&& (r is Ok <==> s is Ok)
            &&& (r is Ok ==> r->Ok_0@ == s->Ok_0)
            &&& (r is Err ==> r->Err_0 == s->Err_0)
        }),
{
    let hook = match msg {
        Some(m) => m,
        None => {
            return Err(ContractError::MissingData);
        },
    };
    match hook {
        Cw20HookMsg::Swap { expected_return, belief_price, max_spread, to } => {
            if !(is_token_at(&pool_0.info, &token_contract) || is_token_at(
                &pool_1.info,
                &token_contract,
            )) {
                return Err(ContractError::Unauthorized);
            }
            let offer_asset = Asset {
                info: AssetInfo::Token {
                    contract_addr: token_contract,
                    token_code_hash: String::new(),
                    viewing_key: String::new(),
                },
                amount,
            };
            match try_swap(
                pool_0,
                pool_1,
                &offer_asset,
                expected_return,
                belief_price,
                max_spread,
                from,
                to,
                sent_funds,
            ) {
                Ok((instruction, _)) => {
                    let mut instructions: Vec<Instruction> = Vec::new();
                    instructions.push(instruction);
                    Ok(instructions)
                },
                Err(e) => Err(e),
            }
        },
        Cw20HookMsg::WithdrawLiquidity => {
            match &state.liquidity_token {
                Some(liquidity_token) => {
                    if token_contract.eq(liquidity_token) {
                        try_withdraw_liquidity(pool_0, pool_1, total_share, from, amount)
                    } else {
                        Err(ContractError::Unauthorized)
                    }
                },
                None => Err(ContractError::Unauthorized),
            }
        },
    }
}

/// The outcome of any request to the pair: the state to persist and the
/// instructions to emit, or the error that aborts the call.  Only
/// post-initialization changes the state.
pub open spec fn spec_handle(
    state: PairState,
    snapshot: LedgerSnapshot,
    sender: String,
    pair_address: String,
    sent_funds: Seq<Coin>,
    msg: HandleMsg,
) -> Result<(PairState, Seq<Instruction>), ContractError> {
    match msg {
        HandleMsg::Receive { from, amount, msg: hook } => {
            match spec_receive_cw20(
                state,
                snapshot.pool_0,
                snapshot.pool_1,
                snapshot.total_share as int,
                sender,
                from,
                amount as int,
                hook,
                sent_funds,
            ) {
                Ok(instructions) => Ok((state, instructions)),
                Err(e) => Err(e),
            }
        },
        HandleMsg::PostInitialize => {
            match spec_post_initialize(state, sender) {
                Ok(new_state) => Ok((new_state, Seq::<Instruction>::empty())),
                Err(e) => Err(e),
            }
        },
        HandleMsg::ProvideLiquidity { assets, slippage_tolerance } => {
            match spec_provide_liquidity(
                snapshot.pool_0,
                snapshot.pool_1,
                snapshot.total_share as int,
                assets,
                slippage_tolerance,
                sender,
                pair_address,
                sent_funds,
            ) {
                Ok(outcome) => Ok((state, outcome.0)),
                Err(e) => Err(e),
            }
        },
        HandleMsg::Swap { offer_asset, expected_return, belief_price, max_spread, to } => {
            if !(offer_asset.info is NativeToken) {
                Err(ContractError::Unauthorized)
            } else {
                match spec_try_swap(
                    snapshot.pool_0,
                    snapshot.pool_1,
                    offer_asset,
                    expected_return,
                    belief_price,
                    max_spread,
                    sender,
                    to,
                    sent_funds,
                ) {
                    Ok(leg) => Ok((state, seq![leg.0])),
                    Err(e) => Err(e),
                }
            }
        },
    }
}

/// The pair's single entry point for state-changing requests.  The snapshot
/// must be queried fresh within the same transaction; a direct swap request
/// is honoured only for a native offer (token offers must come through
/// their token contract's notification).
pub fn handle(state: &PairState, snapshot: &LedgerSnapshot, info: &CallInfo, msg: HandleMsg) -> (r:
    Result<HandleOutcome, ContractError>)
    ensures
        ({
            let s = spec_handle(
                *state,
                *snapshot,
                info.sender,
                info.pair_address,
                info.sent_funds@,
                msg,
            );
            &&& (r is Ok <==> s is Ok)
            &&& (r is Ok ==> r->Ok_0.new_state == s->Ok_0.0 && r->Ok_0.instructions@ == s->Ok_0.1)
            &&& (r is Err ==> r->Err_0 == s->Err_0)
        }),
{
    match msg {
        HandleMsg::Receive { from, amount, msg: hook } => {
            match receive_cw20(
                state,
                &snapshot.pool_0,
                &snapshot.pool_1,
                snapshot.total_share,
                info.sender.clone(),
                from,
                amount,
                hook,
                info.sent_funds.as_slice(),
            ) {
                Ok(instructions) => Ok(
                    HandleOutcome { new_state: state.clone(), instructions },
                ),
                Err(e) => Err(e),
            }
        },
        HandleMsg::PostInitialize => {
            match try_post_initialize(state, info.sender.clone()) {
                Ok(new_state) => Ok(
                    HandleOutcome { new_state, instructions: Vec::new() },
                ),
                Err(e) => Err(e),
            }
        },
        HandleMsg::ProvideLiquidity { assets, slippage_tolerance } => {
            match try_provide_liquidity(
                &snapshot.pool_0,
                &snapshot.pool_1,
                snapshot.total_share,
                &assets,
                slippage_tolerance,
                info.sender.clone(),
                info.pair_address.clone(),
                info.sent_funds.as_slice(),
            ) {
                Ok((instructions, _)) => Ok(
                    HandleOutcome { new_state: state.clone(), instructions },
                ),
                Err(e) => Err(e),
            }
        },
        HandleMsg::Swap { offer_asset, expected_return, belief_price, max_spread, to } => {
            if !offer_asset.info.is_native_token() {
                return Err(ContractError::Unauthorized);
            }
            match try_swap(
                &snapshot.pool_0,
                &snapshot.pool_1,
                &offer_asset,
                expected_return,
                belief_price,
                max_spread,
                info.sender.clone(),
                to,
                info.sent_funds.as_slice(),
            ) {
                Ok((instruction, _)) => {
                    let mut instructions: Vec<Instruction> = Vec::new();
                    instructions.push(instruction);
                    Ok(HandleOutcome { new_state: state.clone(), instructions })
                },
                Err(e) => Err(e),
            }
        },
    }
}

/// A read-only request to the pair.
#[derive(Debug)]
pub enum QueryMsg {
    /// The pair's stored identity.
    Pair,
    /// The current reserves and share supply.
    Pool,
    /// A forward quote for an offered asset.
    Simulation { offer_asset: Asset },
    /// A reverse quote for a requested output.
    ReverseSimulation { ask_asset: Asset },
}

/// The pair's stored identity, as a query reports it.
#[derive(Debug)]
pub struct PairInfo {
    pub asset_infos: (AssetInfo, AssetInfo),
    pub token_code_hash: String,
    pub liquidity_token: Option<String>,
}

/// The current reserves and liquidity-token supply.
#[derive(Debug)]
pub struct PoolResponse {
    pub assets: (Asset, Asset),
    pub total_share: u128,
}

/// A forward quote, as a query reports it.
#[derive(Clone, Copy, Debug, PartialEq, Eq, Structural)]
pub struct SimulationResponse {
    pub return_amount: u128,
    pub spread_amount: u128,
    pub commission_amount: u128,
}

/// A reverse quote, as a query reports it.
#[derive(Clone, Copy, Debug, PartialEq, Eq, Structural)]
pub struct ReverseSimulationResponse {
    pub offer_amount: u128,
    pub spread_amount: u128,
    pub commission_amount: u128,
}

/// The answer to a read-only request.
#[derive(Debug)]
pub enum QueryAnswer {
    Pair(PairInfo),
    Pool(PoolResponse),
    Simulation(SimulationResponse),
    ReverseSimulation(ReverseSimulationResponse),
}

/// The forward quote on the queried reserves as they stand (a query carries
/// no deposit, so nothing is subtracted).
pub open spec fn spec_simulate(op: int, ap: int, oa: int) -> Result<
    SimulationResponse,
    ContractError,
> {
    if !swap_in_range(op, ap, oa) {
        Err(ContractError::ArithmeticError)
    } else {
        Ok(
            SimulationResponse {
                return_amount: swap_return(op, ap, oa) as u128,
                spread_amount: swap_spread(op, ap, oa) as u128,
                commission_amount: swap_commission(op, ap, oa) as u128,
            },
        )
    }
}

/// The outcome of a forward-quote query: the offered asset picks its pool
/// slot, the other slot is the ask side.
pub open spec fn spec_query_simulation(pool_0: Asset, pool_1: Asset, offer_asset: Asset) -> Result<
    SimulationResponse,
    ContractError,
> {
    if offer_asset.info.spec_equal(&pool_0.info) {
        spec_simulate(pool_0.amount as int, pool_1.amount as int, offer_asset.amount as int)
    } else if offer_asset.info.spec_equal(&pool_1.info) {
        spec_simulate(pool_1.amount as int, pool_0.amount as int, offer_asset.amount as int)
    } else {
        Err(ContractError::InvalidAsset)
    }
}

/// Quote a swap of `offer_asset` against the current reserves, without
/// executing anything.
pub fn query_simulation(pool_0: &Asset, pool_1: &Asset, offer_asset: &Asset) -> (r: Result<
    SimulationResponse,
    ContractError,
>)
    ensures
        r == spec_query_simulation(*pool_0, *pool_1, *offer_asset),
{
    let (offer_pool, ask_pool) = if offer_asset.info.equal(&pool_0.info) {
        (pool_0, pool_1)
    } else if offer_asset.info.equal(&pool_1.info) {
        (pool_1, pool_0)
    } else {
        return Err(ContractError::InvalidAsset);
    };
    match compute_swap(offer_pool.amount, ask_pool.amount, offer_asset.amount) {
        Ok(quote) => Ok(
            SimulationResponse {
                return_amount: quote.return_amount,
                spread_amount: quote.spread_amount,
                commission_amount: quote.commission_amount,
            },
        ),
        Err(e) => Err(e),
    }
}

/// The reverse quote on the queried reserves as they stand.
pub open spec fn spec_reverse_simulate(op: int, ap: int, ask: int) -> Result<
    ReverseSimulationResponse,
    ContractError,
> {
    if op * ap > u128::MAX {
        Err(ContractError::ArithmeticError)
    } else if ask * inv_one_minus_commission_atomics() > u128::MAX {
        Err(ContractError::ArithmeticError)
    } else if inflated_ask(ask) >= ap {
        Err(ContractError::InsufficientLiquidity)
    } else if !reverse_in_range(op, ap, ask) {
        Err(ContractError::ArithmeticError)
    } else {
        Ok(
            ReverseSimulationResponse {
                offer_amount: reverse_offer_amount(op, ap, ask) as u128,
                spread_amount: reverse_spread(op, ap, ask) as u128,
                commission_amount: reverse_commission(ask) as u128,
            },
        )
    }
}

/// The outcome of a reverse-quote query: the requested asset picks the ask
/// slot, the other slot is the offer side.
pub open spec fn spec_query_reverse_simulation(
    pool_0: Asset,
    pool_1: Asset,
    ask_asset: Asset,
) -> Result<ReverseSimulationResponse, ContractError> {
    if ask_asset.info.spec_equal(&pool_0.info) {
        spec_reverse_simulate(pool_1.amount as int, pool_0.amount as int, ask_asset.amount as int)
    } else if ask_asset.info.spec_equal(&pool_1.info) {
        spec_reverse_simulate(pool_0.amount as int, pool_1.amount as int, ask_asset.amount as int)
    } else {
        Err(ContractError::InvalidAsset)
    }
}

/// Quote the offer needed to receive `ask_asset` from the current reserves,
/// without executing anything.
pub fn query_reverse_simulation(pool_0: &Asset, pool_1: &Asset, ask_asset: &Asset) -> (r: Result<
    ReverseSimulationResponse,
    ContractError,
>)
    ensures
        r == spec_query_reverse_simulation(*pool_0, *pool_1, *ask_asset),
{
    let (offer_pool, ask_pool) = if ask_asset.info.equal(&pool_0.info) {
        (pool_1, pool_0)
    } else if ask_asset.info.equal(&pool_1.info) {
        (pool_0, pool_1)
    } else {
        return Err(ContractError::InvalidAsset);
    };
    match compute_offer_amount(offer_pool.amount, ask_pool.amount, ask_asset.amount) {
        Ok(quote) => Ok(
            ReverseSimulationResponse {
                offer_amount: quote.offer_amount,
                spread_amount: quote.spread_amount,
                commission_amount: quote.commission_amount,
            },
        ),
        Err(e) => Err(e),
    }
}

/// The pair's stored identity.
pub fn query_pair_info(state: &PairState) -> (r: PairInfo)
    ensures
        r.asset_infos == state.asset_infos,
        r.token_code_hash == state.token_code_hash,
        r.liquidity_token == state.liquidity_token,
{
    let copy = state.clone();
    PairInfo {
        asset_infos: copy.asset_infos,
        token_code_hash: copy.token_code_hash,
        liquidity_token: copy.liquidity_token,
    }
}

/// The current reserves and share supply, as queried.
pub fn query_pool(snapshot: &LedgerSnapshot) -> (r: PoolResponse)
    ensures
        r.assets.0 == snapshot.pool_0,
        r.assets.1 == snapshot.pool_1,
        r.total_share == snapshot.total_share,
{
    PoolResponse {
        assets: (snapshot.pool_0.clone(), snapshot.pool_1.clone()),
        total_share: snapshot.total_share,
    }
}

/// The outcome of any read-only request against the queried snapshot.
pub open spec fn spec_query(state: PairState, snapshot: LedgerSnapshot, msg: QueryMsg) -> Result<
    QueryAnswer,
    ContractError,
> {
    match msg {
        QueryMsg::Pair => Ok(
            QueryAnswer::Pair(
                PairInfo {
                    asset_infos: state.asset_infos,
                    token_code_hash: state.token_code_hash,
                    liquidity_token: state.liquidity_token,
                },
            ),
        ),
        QueryMsg::Pool => Ok(
            QueryAnswer::Pool(
                PoolResponse {
                    assets: (snapshot.pool_0, snapshot.pool_1),
                    total_share: snapshot.total_share,
                },
            ),
        ),
        QueryMsg::Simulation { offer_asset } => {
            match spec_query_simulation(snapshot.pool_0, snapshot.pool_1, offer_asset) {
                Ok(resp) => Ok(QueryAnswer::Simulation(resp)),
                Err(e) => Err(e),
            }
        },
        QueryMsg::ReverseSimulation { ask_asset } => {
            match spec_query_reverse_simulation(snapshot.pool_0, snapshot.pool_1, ask_asset) {
                Ok(resp) => Ok(QueryAnswer::ReverseSimulation(resp)),
                Err(e) => Err(e),
            }
        },
    }
}

/// The pair's single entry point for read-only requests.
pub fn query(state: &PairState, snapshot: &LedgerSnapshot, msg: QueryMsg) -> (r: Result<
    QueryAnswer,
    ContractError,
>)
    ensures
        r == spec_query(*state, *snapshot, msg),
{
    match msg {
        QueryMsg::Pair => Ok(QueryAnswer::Pair(query_pair_info(state))),
        QueryMsg::Pool => Ok(QueryAnswer::Pool(query_pool(snapshot))),
        QueryMsg::Simulation { offer_asset } => {
            match query_simulation(&snapshot.pool_0, &snapshot.pool_1, &offer_asset) {
                Ok(resp) => Ok(QueryAnswer::Simulation(resp)),
                Err(e) => Err(e),
            }
        },
        QueryMsg::ReverseSimulation { ask_asset } => {
            match query_reverse_simulation(&snapshot.pool_0, &snapshot.pool_1, &ask_asset) {
                Ok(resp) => Ok(QueryAnswer::ReverseSimulation(resp)),
                Err(e) => Err(e),
            }
        },
    }
}

} // verus!
