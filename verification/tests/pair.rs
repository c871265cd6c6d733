use secretswap::asset::{Asset, AssetInfo, Coin};
use secretswap::errors::ContractError;
use secretswap::pair::{
    handle, init, query, query_pool, query_reverse_simulation, query_simulation, receive_cw20,
    try_post_initialize, try_provide_liquidity, try_swap, try_withdraw_liquidity, CallInfo,
    Cw20HookMsg, HandleMsg, Instruction, LedgerSnapshot, PairState, QueryAnswer, QueryMsg,
};

fn native(denom: &str, amount: u128) -> Asset {
    Asset { info: AssetInfo::NativeToken { denom: denom.to_string() }, amount }
}

fn token(addr: &str, amount: u128) -> Asset {
    Asset {
        info: AssetInfo::Token {
            contract_addr: addr.to_string(),
            token_code_hash: String::new(),
            viewing_key: String::new(),
        },
        amount,
    }
}

fn fresh_state() -> PairState {
    init(
        (native("uscrt", 0).info, token("tokena", 0).info),
        "hash".to_string(),
    )
}

#[test]
fn post_initialize_succeeds_once() {
    let state = fresh_state();
    let after = try_post_initialize(&state, "lptoken".to_string()).unwrap();
    assert_eq!(after.liquidity_token, Some("lptoken".to_string()));
}

#[test]
fn post_initialize_twice_is_unauthorized() {
    let state = fresh_state();
    let after = try_post_initialize(&state, "lptoken".to_string()).unwrap();
    let second = try_post_initialize(&after, "other".to_string());
    assert!(matches!(second, Err(ContractError::Unauthorized)));
}

#[test]
fn swap_of_unknown_asset_is_invalid() {
    let pool_0 = native("uscrt", 1_000_000);
    let pool_1 = token("tokena", 1_000_000);
    let offer = native("uatom", 1000);
    let sent = vec![Coin { denom: "uatom".to_string(), amount: 1000 }];
    let r = try_swap(
        &pool_0,
        &pool_1,
        &offer,
        None,
        None,
        None,
        "alice".to_string(),
        None,
        &sent,
    );
    assert!(matches!(r, Err(ContractError::InvalidAsset)));
}

#[test]
fn native_swap_transfers_the_net_return() {
    // the ledger already holds the 1000 the trader sent along
    let pool_0 = native("uscrt", 1_001_000);
    let pool_1 = token("tokena", 1_000_000);
    let offer = native("uscrt", 1000);
    let sent = vec![Coin { denom: "uscrt".to_string(), amount: 1000 }];
    let (instruction, quote) = try_swap(
        &pool_0,
        &pool_1,
        &offer,
        None,
        None,
        None,
        "alice".to_string(),
        None,
        &sent,
    )
    .unwrap();
    assert_eq!(quote.return_amount, 997);
    assert_eq!(quote.spread_amount, 0);
    assert_eq!(quote.commission_amount, 3);
    match instruction {
        Instruction::Transfer { asset_info, recipient, amount } => {
            assert!(matches!(asset_info, AssetInfo::Token { .. }));
            assert_eq!(recipient, "alice".to_string());
            assert_eq!(amount, 997);
        }
        _ => panic!("expected a transfer"),
    }
}

#[test]
fn native_swap_pays_the_explicit_recipient() {
    let pool_0 = native("uscrt", 1_001_000);
    let pool_1 = token("tokena", 1_000_000);
    let offer = native("uscrt", 1000);
    let sent = vec![Coin { denom: "uscrt".to_string(), amount: 1000 }];
    let (instruction, _) = try_swap(
        &pool_0,
        &pool_1,
        &offer,
        None,
        None,
        None,
        "alice".to_string(),
        Some("bob".to_string()),
        &sent,
    )
    .unwrap();
    match instruction {
        Instruction::Transfer { recipient, .. } => assert_eq!(recipient, "bob".to_string()),
        _ => panic!("expected a transfer"),
    }
}

#[test]
fn native_swap_without_the_funds_is_a_balance_mismatch() {
    let pool_0 = native("uscrt", 1_001_000);
    let pool_1 = token("tokena", 1_000_000);
    let offer = native("uscrt", 1000);
    let sent = vec![Coin { denom: "uscrt".to_string(), amount: 999 }];
    let r = try_swap(
        &pool_0,
        &pool_1,
        &offer,
        None,
        None,
        None,
        "alice".to_string(),
        None,
        &sent,
    );
    assert!(matches!(r, Err(ContractError::NativeBalanceMismatch)));
}

#[test]
fn token_swap_through_handle_is_unauthorized() {
    let state = fresh_state();
    let snapshot = LedgerSnapshot {
        pool_0: native("uscrt", 1_000_000),
        pool_1: token("tokena", 1_000_000),
        total_share: 1000,
    };
    let info = CallInfo {
        sender: "alice".to_string(),
        sent_funds: vec![],
        pair_address: "pair".to_string(),
    };
    let r = handle(
        &state,
        &snapshot,
        &info,
        HandleMsg::Swap {
            offer_asset: token("tokena", 1000),
            expected_return: None,
            belief_price: None,
            max_spread: None,
            to: None,
        },
    );
    assert!(matches!(r, Err(ContractError::Unauthorized)));
}

#[test]
fn receive_swap_from_a_pooled_token_is_honoured() {
    let state = fresh_state();
    let pool_0 = native("uscrt", 1_000_000);
    let pool_1 = token("tokena", 1_001_000);
    let instructions = receive_cw20(
        &state,
        &pool_0,
        &pool_1,
        1000,
        "tokena".to_string(),
        "alice".to_string(),
        1000,
        Some(Cw20HookMsg::Swap {
            expected_return: None,
            belief_price: None,
            max_spread: None,
            to: None,
        }),
        &[],
    )
    .unwrap();
    assert_eq!(instructions.len(), 1);
    match &instructions[0] {
        Instruction::Transfer { asset_info, recipient, amount } => {
            assert!(matches!(asset_info, AssetInfo::NativeToken { .. }));
            assert_eq!(recipient, &"alice".to_string());
            assert_eq!(*amount, 997);
        }
        _ => panic!("expected a transfer"),
    }
}

#[test]
fn receive_swap_from_an_unknown_contract_is_unauthorized() {
    let state = fresh_state();
    let pool_0 = native("uscrt", 1_000_000);
    let pool_1 = token("tokena", 1_000_000);
    let r = receive_cw20(
        &state,
        &pool_0,
        &pool_1,
        1000,
        "mallory".to_string(),
        "alice".to_string(),
        1000,
        Some(Cw20HookMsg::Swap {
            expected_return: None,
            belief_price: None,
            max_spread: None,
            to: None,
        }),
        &[],
    );
    assert!(matches!(r, Err(ContractError::Unauthorized)));
}

#[test]
fn receive_without_a_request_is_missing_data() {
    let state = fresh_state();
    let pool_0 = native("uscrt", 1_000_000);
    let pool_1 = token("tokena", 1_000_000);
    let r = receive_cw20(
        &state,
        &pool_0,
        &pool_1,
        1000,
        "tokena".to_string(),
        "alice".to_string(),
        1000,
        None,
        &[],
    );
    assert!(matches!(r, Err(ContractError::MissingData)));
}

#[test]
fn receive_withdraw_from_the_liquidity_token_is_honoured() {
    let state = try_post_initialize(&fresh_state(), "lptoken".to_string()).unwrap();
    let pool_0 = native("uscrt", 1050);
    let pool_1 = token("tokena", 4200);
    let instructions = receive_cw20(
        &state,
        &pool_0,
        &pool_1,
        105,
        "lptoken".to_string(),
        "alice".to_string(),
        5,
        Some(Cw20HookMsg::WithdrawLiquidity),
        &[],
    )
    .unwrap();
    assert_eq!(instructions.len(), 3);
    match &instructions[0] {
        Instruction::Transfer { amount, .. } => assert_eq!(*amount, 49),
        _ => panic!("expected a transfer"),
    }
    match &instructions[1] {
        Instruction::Transfer { amount, .. } => assert_eq!(*amount, 199),
        _ => panic!("expected a transfer"),
    }
    match &instructions[2] {
        Instruction::Burn { amount } => assert_eq!(*amount, 5),
        _ => panic!("expected a burn"),
    }
}

#[test]
fn receive_withdraw_from_another_contract_is_unauthorized() {
    let state = try_post_initialize(&fresh_state(), "lptoken".to_string()).unwrap();
    let pool_0 = native("uscrt", 1050);
    let pool_1 = token("tokena", 4200);
    let r = receive_cw20(
        &state,
        &pool_0,
        &pool_1,
        105,
        "tokena".to_string(),
        "alice".to_string(),
        5,
        Some(Cw20HookMsg::WithdrawLiquidity),
        &[],
    );
    assert!(matches!(r, Err(ContractError::Unauthorized)));
}

#[test]
fn provide_liquidity_pulls_tokens_and_mints_the_share() {
    // the 100 native coins sent along are already in the queried balance
    let pool_0 = native("uscrt", 1100);
    let pool_1 = token("tokena", 4000);
    let assets = (native("uscrt", 100), token("tokena", 400));
    let sent = vec![Coin { denom: "uscrt".to_string(), amount: 100 }];
    let (instructions, share) = try_provide_liquidity(
        &pool_0,
        &pool_1,
        100,
        &assets,
        None,
        "alice".to_string(),
        "pair".to_string(),
        &sent,
    )
    .unwrap();
    assert_eq!(share, 10);
    assert_eq!(instructions.len(), 2);
    match &instructions[0] {
        Instruction::TransferFrom { owner, recipient, amount, .. } => {
            assert_eq!(owner, &"alice".to_string());
            assert_eq!(recipient, &"pair".to_string());
            assert_eq!(*amount, 400);
        }
        _ => panic!("expected a pull"),
    }
    match &instructions[1] {
        Instruction::Mint { recipient, amount } => {
            assert_eq!(recipient, &"alice".to_string());
            assert_eq!(*amount, 10);
        }
        _ => panic!("expected a mint"),
    }
}

#[test]
fn provide_liquidity_first_deposit_mints_the_root() {
    let pool_0 = native("uscrt", 10_000);
    let pool_1 = token("tokena", 0);
    let assets = (native("uscrt", 10_000), token("tokena", 40_000));
    let sent = vec![Coin { denom: "uscrt".to_string(), amount: 10_000 }];
    let (_, share) = try_provide_liquidity(
        &pool_0,
        &pool_1,
        0,
        &assets,
        None,
        "alice".to_string(),
        "pair".to_string(),
        &sent,
    )
    .unwrap();
    assert_eq!(share, 20_000);
}

#[test]
fn provide_liquidity_with_a_foreign_asset_is_invalid() {
    let pool_0 = native("uscrt", 1100);
    let pool_1 = token("tokena", 4000);
    let assets = (native("uscrt", 100), token("tokenb", 400));
    let sent = vec![Coin { denom: "uscrt".to_string(), amount: 100 }];
    let r = try_provide_liquidity(
        &pool_0,
        &pool_1,
        100,
        &assets,
        None,
        "alice".to_string(),
        "pair".to_string(),
        &sent,
    );
    assert!(matches!(r, Err(ContractError::InvalidAsset)));
}

#[test]
fn withdraw_refunds_proportionally_and_burns() {
    let pool_0 = native("uscrt", 1050);
    let pool_1 = token("tokena", 4200);
    let instructions =
        try_withdraw_liquidity(&pool_0, &pool_1, 105, "alice".to_string(), 5).unwrap();
    assert_eq!(instructions.len(), 3);
    match &instructions[0] {
        Instruction::Transfer { amount, .. } => assert_eq!(*amount, 49),
        _ => panic!("expected a transfer"),
    }
    match &instructions[2] {
        Instruction::Burn { amount } => assert_eq!(*amount, 5),
        _ => panic!("expected a burn"),
    }
}

#[test]
fn provide_then_withdraw_returns_at_most_the_deposits() {
    // provide (100 native, 400 token) against pre-deposit reserves
    // (1000, 4000) at supply 100: 10 shares are minted
    let pool_0 = native("uscrt", 1100);
    let pool_1 = token("tokena", 4000);
    let assets = (native("uscrt", 100), token("tokena", 400));
    let sent = vec![Coin { denom: "uscrt".to_string(), amount: 100 }];
    let (_, share) = try_provide_liquidity(
        &pool_0,
        &pool_1,
        100,
        &assets,
        None,
        "alice".to_string(),
        "pair".to_string(),
        &sent,
    )
    .unwrap();
    assert_eq!(share, 10);
    // after the pull lands, the reserves are (1100, 4400) at supply 110;
    // withdrawing the freshly minted 10 shares refunds less than went in
    let grown_0 = native("uscrt", 1100);
    let grown_1 = token("tokena", 4400);
    let instructions =
        try_withdraw_liquidity(&grown_0, &grown_1, 110, "alice".to_string(), share).unwrap();
    let refunds: Vec<u128> = instructions
        .iter()
        .filter_map(|ins| match ins {
            Instruction::Transfer { amount, .. } => Some(*amount),
            _ => None,
        })
        .collect();
    assert_eq!(refunds, vec![99, 399]);
    assert!(refunds[0] <= 100 && refunds[1] <= 400);
}

#[test]
fn simulation_quotes_without_executing() {
    let pool_0 = native("uscrt", 1_000_000);
    let pool_1 = token("tokena", 1_000_000);
    let resp = query_simulation(&pool_0, &pool_1, &native("uscrt", 1000)).unwrap();
    assert_eq!(resp.return_amount, 997);
    assert_eq!(resp.spread_amount, 0);
    assert_eq!(resp.commission_amount, 3);
}

#[test]
fn simulation_of_a_foreign_asset_is_invalid() {
    let pool_0 = native("uscrt", 1_000_000);
    let pool_1 = token("tokena", 1_000_000);
    let r = query_simulation(&pool_0, &pool_1, &native("uatom", 1000));
    assert!(matches!(r, Err(ContractError::InvalidAsset)));
}

#[test]
fn reverse_simulation_inverts_the_quote() {
    let pool_0 = native("uscrt", 1_000_000_000);
    let pool_1 = token("tokena", 1_000_000_000);
    let resp = query_reverse_simulation(&pool_0, &pool_1, &token("tokena", 10_000)).unwrap();
    assert_eq!(resp.offer_amount, 10_030);
}

#[test]
fn reverse_simulation_of_a_foreign_asset_is_invalid() {
    let pool_0 = native("uscrt", 1_000_000);
    let pool_1 = token("tokena", 1_000_000);
    let r = query_reverse_simulation(&pool_0, &pool_1, &token("tokenb", 1000));
    assert!(matches!(r, Err(ContractError::InvalidAsset)));
}

#[test]
fn pool_query_reports_the_snapshot() {
    let snapshot = LedgerSnapshot {
        pool_0: native("uscrt", 123),
        pool_1: token("tokena", 456),
        total_share: 789,
    };
    let resp = query_pool(&snapshot);
    assert_eq!(resp.assets.0.amount, 123);
    assert_eq!(resp.assets.1.amount, 456);
    assert_eq!(resp.total_share, 789);
}

#[test]
fn handle_routes_post_initialize() {
    let state = fresh_state();
    let snapshot = LedgerSnapshot {
        pool_0: native("uscrt", 0),
        pool_1: token("tokena", 0),
        total_share: 0,
    };
    let info = CallInfo {
        sender: "lptoken".to_string(),
        sent_funds: vec![],
        pair_address: "pair".to_string(),
    };
    let outcome = handle(&state, &snapshot, &info, HandleMsg::PostInitialize).unwrap();
    assert_eq!(outcome.new_state.liquidity_token, Some("lptoken".to_string()));
    assert!(outcome.instructions.is_empty());
    let again = handle(&outcome.new_state, &snapshot, &info, HandleMsg::PostInitialize);
    assert!(matches!(again, Err(ContractError::Unauthorized)));
}

#[test]
fn query_routes_simulation() {
    let state = fresh_state();
    let snapshot = LedgerSnapshot {
        pool_0: native("uscrt", 1_000_000),
        pool_1: token("tokena", 1_000_000),
        total_share: 0,
    };
    let answer = query(
        &state,
        &snapshot,
        QueryMsg::Simulation { offer_asset: native("uscrt", 1000) },
    )
    .unwrap();
    match answer {
        QueryAnswer::Simulation(resp) => assert_eq!(resp.return_amount, 997),
        _ => panic!("expected a simulation answer"),
    }
}
