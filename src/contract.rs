//! The operations: instantiate, update the configuration, deposit, withdraw, and
//! read the configuration.
use crate::asset::{
    balance_query, get_amount_of_denom, is_bank_send, is_token_transfer, native_amount,
    transfer_token_message, Asset, Balance, BalanceQuery, Coin,
};
use crate::error::ContractError;
use crate::msg::{
    attribute, attributes_are, ConfigResponse, ExecuteMsg, InstantiateMsg, MessageInfo, Outcome,
    QueryMsg, Response,
};
use crate::state::{loaded, updated, Config, ConfigStore};
use vstd::prelude::*;

verus! {

/// The native denomination that deposits are taken in.
pub const DEPOSIT_DENOM: &'static str = "ucore";

/// The native denomination that withdrawals pay out.
pub const WITHDRAW_DENOM: &'static str = "inj";

/// Token units issued per native unit deposited, until the owner changes it.
pub const DEFAULT_CR: u32 = 200;

/// The configuration that instantiation by `owner` writes.
pub open spec fn initial_config(owner: String, token_address: String) -> Config {
    Config { owner, token_address, cr: DEFAULT_CR }
}

/// What a configuration query returns on `store`.
pub open spec fn config_view(store: ConfigStore) -> Result<ConfigResponse, ContractError> {
    match loaded(store) {
        Ok(c) => Ok(ConfigResponse { owner: c.owner, token_address: c.token_address, cr: c.cr }),
        Err(e) => Err(e),
    }
}

/// The response of a successful configuration update.
pub open spec fn is_update_response(resp: Response) -> bool {
    &&& resp.messages@.len() == 0
    &&& attributes_are(resp, seq![("action"@, "update_constants"@)])
}

/// An update by `sender` took `before` to `after` with result `r`.
pub open spec fn update_post(
    before: ConfigStore,
    after: ConfigStore,
    sender: String,
    new_owner: String,
    token_address: String,
    cr: u32,
    r: Result<Response, ContractError>,
) -> bool {
    match updated(before, sender, new_owner, token_address, cr) {
        Ok(c) => after.config == Some(c) && (r matches Ok(resp) && is_update_response(resp)),
        Err(e) => r == Err::<Response, ContractError>(e) && after == before,
    }
}

/// The token quantity that a deposit of `funds` is owed, or why it is refused:
/// the amount of the first coin in the deposit denomination times the ratio.
pub open spec fn deposit_quantity(store: ConfigStore, funds: Seq<Coin>) -> Result<u128, ContractError> {
    match loaded(store) {
        Err(e) => Err(e),
        Ok(c) => {
            let q = native_amount(funds, DEPOSIT_DENOM@);
            if q == 0 {
                Err(ContractError::ZeroNativeInput)
            } else if q * c.cr > u128::MAX {
                Err(ContractError::Overflow)
            } else {
                Ok((q * c.cr) as u128)
            }
        },
    }
}

/// The response of a deposit that issues `quantity` of `token` to `sender`.
pub open spec fn is_deposit_response(
    resp: Response,
    token: Seq<char>,
    sender: Seq<char>,
    quantity: nat,
    receiver: Seq<char>,
) -> bool {
    &&& resp.messages@.len() == 1
    &&& is_token_transfer(resp.messages@[0], token, sender, quantity)
    &&& attributes_are(resp, seq![("method"@, "deposit"@), ("receiver"@, receiver)])
}

/// A deposit on `store` by `info`, recorded as for `receiver`, ended in `r`.
pub open spec fn deposit_post(
    store: ConfigStore,
    receiver: String,
    info: MessageInfo,
    r: Result<Response, ContractError>,
) -> bool {
    match deposit_quantity(store, info.funds@) {
        Err(e) => r == Err::<Response, ContractError>(e),
        Ok(q) => r matches Ok(resp) && is_deposit_response(
            resp,
            store.config->Some_0.token_address@,
            info.sender@,
            q as nat,
            receiver@,
        ),
    }
}

/// A withdrawal request by `sender` on `store` ended in `r`: refused unless
/// `sender` is the owner, else the query of the contract's own native balance.
pub open spec fn withdraw_post(
    store: ConfigStore,
    contract_addr: String,
    sender: String,
    r: Result<BalanceQuery, ContractError>,
) -> bool {
    match loaded(store) {
        Err(e) => r == Err::<BalanceQuery, ContractError>(e),
        Ok(c) => if sender@ != c.owner@ {
            r == Err::<BalanceQuery, ContractError>(ContractError::Unauthorized)
        } else {
            &&& r matches Ok(BalanceQuery::Bank { address, denom })
            &&& address@ == contract_addr@
            &&& denom@ == WITHDRAW_DENOM@
        },
    }
}

/// The response of a withdrawal that pays `balance` to `owner`.
pub open spec fn is_withdraw_response(resp: Response, owner: Seq<char>, balance: nat) -> bool {
    &&& resp.messages@.len() == 1
    &&& is_bank_send(resp.messages@[0], owner, WITHDRAW_DENOM@, balance)
    &&& attributes_are(resp, seq![("action"@, "withdraw"@)])
}

/// A dispatch result as the result of a handler that responds, or `None`
/// where it asks for a balance query instead.
pub open spec fn response_of(r: Result<Outcome, ContractError>) -> Option<Result<Response, ContractError>> {
    match r {
        Ok(Outcome::Respond(resp)) => Some(Ok(resp)),
        Ok(Outcome::QueryBalance(_)) => None,
        Err(e) => Some(Err(e)),
    }
}

/// A dispatch result as the result of a handler that asks for a balance query,
/// or `None` where it responds instead.
pub open spec fn query_of(r: Result<Outcome, ContractError>) -> Option<Result<BalanceQuery, ContractError>> {
    match r {
        Ok(Outcome::QueryBalance(q)) => Some(Ok(q)),
        Ok(Outcome::Respond(_)) => None,
        Err(e) => Some(Err(e)),
    }
}

/// Writes the configuration: the instantiating `sender` owns the contract, and
/// the ratio starts at `DEFAULT_CR`.
pub fn instantiate(store: &mut ConfigStore, sender: String, msg: InstantiateMsg) -> (r: Result<Response, ContractError>)
    ensures
        final(store).config == Some(initial_config(sender, msg.token_address)),
        r matches Ok(resp) && resp.messages@.len() == 0 && resp.attributes@.len() == 0,
{
    store.save(Config { owner: sender, token_address: msg.token_address, cr: DEFAULT_CR });
    Ok(Response { messages: Vec::new(), attributes: Vec::new() })
}

/// Dispatches a state-changing request from `info.sender` to the contract at
/// `contract_addr`. A withdrawal stops at the balance query, which the host
/// answers through `finish_withdraw`.
pub fn execute(store: &mut ConfigStore, contract_addr: &String, info: MessageInfo, msg: ExecuteMsg) -> (r: Result<Outcome, ContractError>)
    ensures
        msg matches ExecuteMsg::UpdateConfig { admin, token_address, cr } ==> {
            &&& response_of(r) is Some
            &&& update_post(*old(store), *final(store), info.sender, admin, token_address, cr, response_of(r)->Some_0)
        },
        msg matches ExecuteMsg::Deposit { receiver, .. } ==> {
            &&& response_of(r) is Some
            &&& *final(store) == *old(store)
            &&& deposit_post(*old(store), receiver, info, response_of(r)->Some_0)
        },
        msg is Withdraw ==> {
            &&& query_of(r) is Some
            &&& *final(store) == *old(store)
            &&& withdraw_post(*old(store), *contract_addr, info.sender, query_of(r)->Some_0)
        },
{
    match msg {
        ExecuteMsg::UpdateConfig { admin, token_address, cr } => {
            let resp = execute_update_config(store, info.sender, admin, token_address, cr)?;
            Ok(Outcome::Respond(resp))
        },
        ExecuteMsg::Deposit { receiver, amount } => {
            let resp = execute_deposit(store, receiver, amount, info)?;
            Ok(Outcome::Respond(resp))
        },
        ExecuteMsg::Withdraw => {
            let request = execute_withdraw(store, contract_addr, &info.sender)?;
            Ok(Outcome::QueryBalance(request))
        },
    }
}

/// Replaces owner, token address and ratio at once, where `sender` is the owner.
pub fn execute_update_config(
    store: &mut ConfigStore,
    sender: String,
    new_admin: String,
    token_address: String,
    cr: u32,
) -> (r: Result<Response, ContractError>)
    ensures
        update_post(*old(store), *final(store), sender, new_admin, token_address, cr, r),
        old(store).config matches Some(c) && sender@ != c.owner@ ==> r == Err::<Response, ContractError>(
            ContractError::Unauthorized,
        ) && *final(store) == *old(store),
{
    store.update(&sender, new_admin, token_address, cr)?;
    let attributes = vec![attribute("action", "update_constants".to_owned())];
    Ok(Response { messages: Vec::new(), attributes })
}

/// Takes the attached coins of the deposit denomination and sends the sender
/// that amount times the ratio of the managed token.
pub fn execute_deposit(store: &ConfigStore, receiver: String, amount: u128, info: MessageInfo) -> (r: Result<Response, ContractError>)
    ensures
        deposit_post(*store, receiver, info, r),
{
    let cfg = store.load()?;
    let MessageInfo { sender, funds } = info;
    let deposited = get_amount_of_denom(&Balance::Native(funds), &Asset::Native(DEPOSIT_DENOM.to_owned()))?;
    let issued = match deposited.checked_mul(cfg.cr as u128) {
        Some(v) => v,
        None => {
            return Err(ContractError::Overflow);
        },
    };
    let transfer = transfer_token_message(Asset::Token(cfg.token_address), issued, sender)?;
    let attributes = vec![attribute("method", "deposit".to_owned()), attribute("receiver", receiver)];
    Ok(Response { messages: vec![transfer], attributes })
}

/// Checks that `sender` owns the contract and gives the query for the
/// contract's own balance of the withdrawal denomination.
pub fn execute_withdraw(store: &ConfigStore, contract_addr: &String, sender: &String) -> (r: Result<BalanceQuery, ContractError>)
    ensures
        withdraw_post(*store, *contract_addr, *sender, r),
{
    let cfg = store.load()?;
    if !(*sender == cfg.owner) {
        return Err(ContractError::Unauthorized);
    }
    Ok(balance_query(&Asset::Native(WITHDRAW_DENOM.to_owned()), contract_addr))
}

/// Ends a withdrawal by `owner` with the balance the query returned: the
/// whole of it is paid out, or the query's failure is passed on.
pub fn finish_withdraw(owner: String, balance: Result<u128, String>) -> (r: Result<Response, ContractError>)
    ensures
        balance matches Ok(b) ==> r matches Ok(resp) && is_withdraw_response(resp, owner@, b as nat),
        balance matches Err(reason) ==> r == Err::<Response, ContractError>(
            ContractError::QueryFailed { reason },
        ),
{
    let total = match balance {
        Ok(b) => b,
        Err(reason) => {
            return Err(ContractError::QueryFailed { reason });
        },
    };
    let transfer = transfer_token_message(Asset::Native(WITHDRAW_DENOM.to_owned()), total, owner);
    let transfer = match transfer {
        Ok(t) => t,
        Err(e) => {
            return Err(e);
        },
    };
    let attributes = vec![attribute("action", "withdraw".to_owned())];
    Ok(Response { messages: vec![transfer], attributes })
}

/// The configuration, readable by anyone.
pub fn query_get_config(store: &ConfigStore) -> (r: Result<ConfigResponse, ContractError>)
    ensures
        r == config_view(*store),
{
    let cfg = store.load()?;
    Ok(ConfigResponse { owner: cfg.owner, token_address: cfg.token_address, cr: cfg.cr })
}

/// Answers a read-only request.
pub fn query(store: &ConfigStore, msg: QueryMsg) -> (r: Result<ConfigResponse, ContractError>)
    ensures
        msg is GetConfig ==> r == config_view(*store),
{
    match msg {
        QueryMsg::GetConfig => query_get_config(store),
    }
}

} // verus!
