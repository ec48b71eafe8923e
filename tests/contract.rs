use cosmwasm_std::{to_json_binary, Uint128};
use cw20::Cw20ExecuteMsg;
use cw_borrow::{
    balance_query, execute, execute_deposit, execute_update_config, execute_withdraw,
    finish_withdraw, get_amount_of_denom, instantiate, query, query_get_config, token_transfer,
    transfer_token_message, Asset, Attribute, Balance, BalanceQuery, Coin, ConfigResponse,
    ConfigStore, ContractError, ExecuteMsg, InstantiateMsg, MessageInfo, Outcome, QueryMsg,
    TokenBalance, Transfer,
};

fn coin(denom: &str, amount: u128) -> Coin {
    Coin { denom: denom.to_string(), amount }
}

fn info(sender: &str, funds: Vec<Coin>) -> MessageInfo {
    MessageInfo { sender: sender.to_string(), funds }
}

fn set_up(owner: &str, token: &str) -> ConfigStore {
    let mut store = ConfigStore::new();
    let msg = InstantiateMsg { token_address: token.to_string() };
    instantiate(&mut store, owner.to_string(), msg).unwrap();
    store
}

fn transfer_json(recipient: &str, amount: u128) -> Vec<u8> {
    let msg = Cw20ExecuteMsg::Transfer {
        recipient: recipient.to_string(),
        amount: Uint128::new(amount),
    };
    to_json_binary(&msg).unwrap().to_vec()
}

fn attr(key: &str, value: &str) -> Attribute {
    Attribute { key: key.to_string(), value: value.to_string() }
}

#[test]
fn instantiate_then_get_config() {
    let store = set_up("creator", "token0");
    let got = query_get_config(&store).unwrap();
    assert_eq!(
        got,
        ConfigResponse { owner: "creator".to_string(), token_address: "token0".to_string(), cr: 200 }
    );
    assert_eq!(query(&store, QueryMsg::GetConfig).unwrap(), got);
}

#[test]
fn instantiate_gives_empty_response() {
    let mut store = ConfigStore::new();
    let resp = instantiate(&mut store, "a".to_string(), InstantiateMsg { token_address: "t".to_string() })
        .unwrap();
    assert!(resp.messages.is_empty());
    assert!(resp.attributes.is_empty());
}

#[test]
fn get_config_before_instantiate_fails() {
    let store = ConfigStore::new();
    assert_eq!(query_get_config(&store), Err(ContractError::NotInitialized));
}

#[test]
fn update_config_by_owner_replaces_everything() {
    let mut store = set_up("creator", "token0");
    let resp = execute_update_config(
        &mut store,
        "creator".to_string(),
        "admin2".to_string(),
        "token1".to_string(),
        150,
    )
    .unwrap();
    assert!(resp.messages.is_empty());
    assert_eq!(resp.attributes, vec![attr("action", "update_constants")]);
    assert_eq!(
        query_get_config(&store).unwrap(),
        ConfigResponse { owner: "admin2".to_string(), token_address: "token1".to_string(), cr: 150 }
    );
    // the old owner has lost its rights
    let again = execute_update_config(
        &mut store,
        "creator".to_string(),
        "creator".to_string(),
        "token0".to_string(),
        200,
    );
    assert_eq!(again, Err(ContractError::Unauthorized));
}

#[test]
fn update_config_by_stranger_is_refused() {
    let mut store = set_up("creator", "token0");
    let before = store.clone();
    let r = execute_update_config(
        &mut store,
        "mallory".to_string(),
        "mallory".to_string(),
        "evil".to_string(),
        1,
    );
    assert_eq!(r, Err(ContractError::Unauthorized));
    assert_eq!(store, before);
}

#[test]
fn update_config_before_instantiate_fails() {
    let mut store = ConfigStore::new();
    let r = execute_update_config(&mut store, "a".to_string(), "b".to_string(), "c".to_string(), 3);
    assert_eq!(r, Err(ContractError::NotInitialized));
    assert_eq!(store, ConfigStore::new());
}

#[test]
fn deposit_ten_at_ratio_200_issues_2000() {
    let store = set_up("creator", "token0");
    let resp = execute_deposit(&store, "label".to_string(), 7, info("alice", vec![coin("ucore", 10)]))
        .unwrap();
    assert_eq!(
        resp.messages,
        vec![Transfer::WasmExecute {
            contract_addr: "token0".to_string(),
            msg: transfer_json("alice", 2000),
            funds: vec![],
        }]
    );
    assert_eq!(resp.attributes, vec![attr("method", "deposit"), attr("receiver", "label")]);
}

#[test]
fn deposit_uses_first_coin_of_the_denomination() {
    let store = set_up("creator", "token0");
    let funds = vec![coin("inj", 99), coin("ucore", 3), coin("ucore", 50)];
    let resp = execute_deposit(&store, "x".to_string(), 0, info("bob", funds)).unwrap();
    assert_eq!(
        resp.messages,
        vec![Transfer::WasmExecute {
            contract_addr: "token0".to_string(),
            msg: transfer_json("bob", 600),
            funds: vec![],
        }]
    );
}

#[test]
fn deposit_follows_updated_ratio() {
    let mut store = set_up("creator", "token0");
    execute_update_config(&mut store, "creator".to_string(), "creator".to_string(), "token9".to_string(), 3)
        .unwrap();
    let resp = execute_deposit(&store, "x".to_string(), 0, info("carol", vec![coin("ucore", 5)])).unwrap();
    match &resp.messages[0] {
        Transfer::WasmExecute { contract_addr, msg, .. } => {
            assert_eq!(contract_addr, "token9");
            assert_eq!(msg, &transfer_json("carol", 15));
            let text = String::from_utf8(msg.clone()).unwrap();
            assert!(text.contains("\"15\""));
        }
        other => panic!("unexpected {:?}", other),
    }
}

#[test]
fn deposit_of_zero_fails() {
    let store = set_up("creator", "token0");
    let r = execute_deposit(&store, "x".to_string(), 10, info("alice", vec![coin("ucore", 0)]));
    assert_eq!(r, Err(ContractError::ZeroNativeInput));
}

#[test]
fn deposit_of_zero_first_coin_fails() {
    let store = set_up("creator", "token0");
    let r = execute_deposit(&store, "x".to_string(), 10, info("alice", vec![coin("ucore", 0), coin("ucore", 4)]));
    assert_eq!(r, Err(ContractError::ZeroNativeInput));
}

#[test]
fn deposit_of_wrong_denomination_fails() {
    let store = set_up("creator", "token0");
    let r = execute_deposit(&store, "x".to_string(), 10, info("alice", vec![coin("inj", 10)]));
    assert_eq!(r, Err(ContractError::ZeroNativeInput));
    let r = execute_deposit(&store, "x".to_string(), 10, info("alice", vec![]));
    assert_eq!(r, Err(ContractError::ZeroNativeInput));
}

#[test]
fn deposit_overflow_is_refused() {
    let store = set_up("creator", "token0");
    let r = execute_deposit(&store, "x".to_string(), 0, info("alice", vec![coin("ucore", u128::MAX / 100)]));
    assert_eq!(r, Err(ContractError::Overflow));
}

#[test]
fn deposit_before_instantiate_fails() {
    let store = ConfigStore::new();
    let r = execute_deposit(&store, "x".to_string(), 0, info("alice", vec![coin("ucore", 1)]));
    assert_eq!(r, Err(ContractError::NotInitialized));
}

#[test]
fn token_balance_for_native_asset_mismatches() {
    let balance = Balance::Token(TokenBalance { address: "token0".to_string(), amount: 10 });
    let r = get_amount_of_denom(&balance, &Asset::Native("ucore".to_string()));
    assert_eq!(r, Err(ContractError::AssetTypeMismatch));
}

#[test]
fn token_amounts_are_checked() {
    let asset = Asset::Token("token0".to_string());
    let good = Balance::Token(TokenBalance { address: "token0".to_string(), amount: 42 });
    assert_eq!(get_amount_of_denom(&good, &asset), Ok(42));
    let other = Balance::Token(TokenBalance { address: "token1".to_string(), amount: 42 });
    assert_eq!(get_amount_of_denom(&other, &asset), Err(ContractError::AssetTypeMismatch));
    let zero = Balance::Token(TokenBalance { address: "token0".to_string(), amount: 0 });
    assert_eq!(get_amount_of_denom(&zero, &asset), Err(ContractError::ZeroTokenInput));
    let native = Balance::Native(vec![coin("ucore", 5)]);
    assert_eq!(get_amount_of_denom(&native, &asset), Err(ContractError::AssetTypeMismatch));
}

#[test]
fn native_amount_is_found() {
    let native = Balance::Native(vec![coin("a", 1), coin("b", 2), coin("b", 3)]);
    assert_eq!(get_amount_of_denom(&native, &Asset::Native("b".to_string())), Ok(2));
    assert_eq!(
        get_amount_of_denom(&native, &Asset::Native("c".to_string())),
        Err(ContractError::ZeroNativeInput)
    );
}

#[test]
fn native_transfer_is_a_bank_send() {
    let t = transfer_token_message(Asset::Native("inj".to_string()), 0, "dave".to_string()).unwrap();
    assert_eq!(
        t,
        Transfer::BankSend { to_address: "dave".to_string(), denom: "inj".to_string(), amount: 0 }
    );
}

#[test]
fn token_transfer_calls_the_token_contract() {
    let t = transfer_token_message(Asset::Token("token0".to_string()), 77, "erin".to_string()).unwrap();
    assert_eq!(
        t,
        Transfer::WasmExecute {
            contract_addr: "token0".to_string(),
            msg: transfer_json("erin", 77),
            funds: vec![],
        }
    );
    match t {
        Transfer::WasmExecute { msg, .. } => {
            let text = String::from_utf8(msg).unwrap();
            assert_eq!(text, "{\"transfer\":{\"recipient\":\"erin\",\"amount\":\"77\"}}");
        }
        _ => unreachable!(),
    }
}

#[test]
fn balance_queries_by_asset() {
    assert_eq!(
        balance_query(&Asset::Native("inj".to_string()), &"me".to_string()),
        BalanceQuery::Bank { address: "me".to_string(), denom: "inj".to_string() }
    );
    assert_eq!(
        balance_query(&Asset::Token("tok".to_string()), &"me".to_string()),
        BalanceQuery::Cw20 { token: "tok".to_string(), address: "me".to_string() }
    );
}

#[test]
fn withdraw_by_stranger_is_refused() {
    let store = set_up("creator", "token0");
    let r = execute_withdraw(&store, &"contract".to_string(), &"mallory".to_string());
    assert_eq!(r, Err(ContractError::Unauthorized));
}

#[test]
fn withdraw_by_owner_pays_whole_balance() {
    let store = set_up("creator", "token0");
    let q = execute_withdraw(&store, &"contract".to_string(), &"creator".to_string()).unwrap();
    assert_eq!(q, BalanceQuery::Bank { address: "contract".to_string(), denom: "inj".to_string() });
    let resp = finish_withdraw("creator".to_string(), Ok(500)).unwrap();
    assert_eq!(
        resp.messages,
        vec![Transfer::BankSend { to_address: "creator".to_string(), denom: "inj".to_string(), amount: 500 }]
    );
    assert_eq!(resp.attributes, vec![attr("action", "withdraw")]);
}

#[test]
fn withdraw_query_failure_is_passed_on() {
    let r = finish_withdraw("creator".to_string(), Err("unreachable".to_string()));
    assert_eq!(r, Err(ContractError::QueryFailed { reason: "unreachable".to_string() }));
}

#[test]
fn execute_dispatches_each_request() {
    let mut store = set_up("creator", "token0");
    let contract = "contract".to_string();
    let out = execute(
        &mut store,
        &contract,
        info("alice", vec![coin("ucore", 10)]),
        ExecuteMsg::Deposit { receiver: "r".to_string(), amount: 0 },
    )
    .unwrap();
    match out {
        Outcome::Respond(resp) => assert_eq!(resp.messages.len(), 1),
        other => panic!("unexpected {:?}", other),
    }
    let out = execute(&mut store, &contract, info("creator", vec![]), ExecuteMsg::Withdraw).unwrap();
    assert_eq!(
        out,
        Outcome::QueryBalance(BalanceQuery::Bank { address: contract.clone(), denom: "inj".to_string() })
    );
    let r = execute(&mut store, &contract, info("alice", vec![]), ExecuteMsg::Withdraw);
    assert_eq!(r, Err(ContractError::Unauthorized));
    let msg = ExecuteMsg::UpdateConfig { admin: "alice".to_string(), token_address: "t2".to_string(), cr: 9 };
    execute(&mut store, &contract, info("creator", vec![]), msg).unwrap();
    assert_eq!(
        query_get_config(&store).unwrap(),
        ConfigResponse { owner: "alice".to_string(), token_address: "t2".to_string(), cr: 9 }
    );
}

#[test]
fn token_transfer_wraps_encoded_message() {
    let t = token_transfer("tok".to_string(), Ok(vec![1, 2, 3])).unwrap();
    assert_eq!(
        t,
        Transfer::WasmExecute { contract_addr: "tok".to_string(), msg: vec![1, 2, 3], funds: vec![] }
    );
    let e = token_transfer("tok".to_string(), Err("bad".to_string()));
    assert_eq!(e, Err(ContractError::EncodingFailed { reason: "bad".to_string() }));
}
