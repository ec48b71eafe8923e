//! Requests the contract answers and the responses it gives.
use crate::asset::{BalanceQuery, Coin, Transfer};
use vstd::prelude::*;

verus! {

/// Sets up the contract with the token it issues.
#[derive(Clone, Debug, PartialEq, Eq)]
pub struct InstantiateMsg {
    pub token_address: String,
}

/// State-changing requests.
#[derive(Clone, Debug, PartialEq, Eq)]
pub enum ExecuteMsg {
    /// Replace owner, token address and ratio; owner only.
    UpdateConfig { admin: String, token_address: String, cr: u32 },
    /// Exchange the attached native coins for the managed token. `receiver` is
    /// only recorded, and `amount` is not read: the attached coins decide.
    Deposit { receiver: String, amount: u128 },
    /// Send the contract's whole native balance to the owner; owner only.
    Withdraw,
}

/// Read-only requests.
#[derive(Clone, Debug, PartialEq, Eq)]
pub enum QueryMsg {
    GetConfig,
}

/// The configuration as a query returns it.
#[derive(Clone, Debug, PartialEq, Eq)]
pub struct ConfigResponse {
    pub owner: String,
    pub token_address: String,
    pub cr: u32,
}

/// Who sent a request, and the native coins attached to it.
#[derive(Clone, Debug, PartialEq, Eq)]
pub struct MessageInfo {
    pub sender: String,
    pub funds: Vec<Coin>,
}

/// A key and value recorded in the response's log.
#[derive(Clone, Debug, PartialEq, Eq)]
pub struct Attribute {
    pub key: String,
    pub value: String,
}

/// What an operation hands back to the host: transfers to apply and log entries.
#[derive(Clone, Debug, PartialEq, Eq)]
pub struct Response {
    pub messages: Vec<Transfer>,
    pub attributes: Vec<Attribute>,
}

/// What `execute` asks of the host: apply a response, or answer a balance
/// query first (a withdrawal then goes on in `finish_withdraw`).
#[derive(Clone, Debug, PartialEq, Eq)]
pub enum Outcome {
    Respond(Response),
    QueryBalance(BalanceQuery),
}

/// The response's log is `entries`, key and value, in order.
pub open spec fn attributes_are(resp: Response, entries: Seq<(Seq<char>, Seq<char>)>) -> bool {
    &&& resp.attributes@.len() == entries.len()
    &&& forall|i: int|
        0 <= i < entries.len() ==> (#[trigger] resp.attributes@[i]).key@ == entries[i].0
            && resp.attributes@[i].value@ == entries[i].1
}

/// A log entry of `key` and `value`.
pub fn attribute(key: &str, value: String) -> (r: Attribute)
    ensures
        r.key@ == key@,
        r.value == value,
{
    Attribute { key: key.to_owned(), value }
}

} // verus!
