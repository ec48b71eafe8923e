//! Assets, the funds that claim an amount of one, and the transfers that move one.
use crate::error::ContractError;
use crate::host::{cw20_transfer_json, encode_cw20_transfer};
use vstd::prelude::*;

verus! {

/// What is being moved: a native coin by denomination, or a cw20 token by
/// contract address.
#[derive(Clone, Debug, PartialEq, Eq)]
pub enum Asset {
    Native(String),
    Token(String),
}

/// An amount of one native denomination.
#[derive(Clone, Debug, PartialEq, Eq)]
pub struct Coin {
    pub denom: String,
    pub amount: u128,
}

/// An amount of the cw20 token at `address`.
#[derive(Clone, Debug, PartialEq, Eq)]
pub struct TokenBalance {
    pub address: String,
    pub amount: u128,
}

/// Funds that claim a quantity: attached native coins, or a token balance.
#[derive(Clone, Debug, PartialEq, Eq)]
pub enum Balance {
    Native(Vec<Coin>),
    Token(TokenBalance),
}

/// An outbound effect that the host applies after the operation returns.
#[derive(Clone, Debug, PartialEq, Eq)]
pub enum Transfer {
    /// Pay `amount` of `denom` to `to_address` from the contract's bank account.
    BankSend { to_address: String, denom: String, amount: u128 },
    /// Call the contract at `contract_addr` with the JSON message `msg`, attaching `funds`.
    WasmExecute { contract_addr: String, msg: Vec<u8>, funds: Vec<Coin> },
}

/// A query for the balance that `address` holds of an asset.
#[derive(Clone, Debug, PartialEq, Eq)]
pub enum BalanceQuery {
    /// Ask the bank for `address`'s coins of `denom`.
    Bank { address: String, denom: String },
    /// Ask the cw20 contract at `token` for `address`'s balance.
    Cw20 { token: String, address: String },
}

/// The amount of the first coin in `coins[i..]` whose denomination is `denom`,
/// or zero where there is none.
pub open spec fn first_amount_from(coins: Seq<Coin>, denom: Seq<char>, i: int) -> u128
    decreases coins.len() - i,
{
    if i < 0 || i >= coins.len() {
        0
    } else if coins[i].denom@ == denom {
        coins[i].amount
    } else {
        first_amount_from(coins, denom, i + 1)
    }
}

/// The amount of `denom` among attached coins: that of the first coin of that
/// denomination, or zero where none is attached.
pub open spec fn native_amount(coins: Seq<Coin>, denom: Seq<char>) -> u128 {
    first_amount_from(coins, denom, 0)
}

/// The quantity that `balance` supplies of `asset`, or why it is refused.
pub open spec fn amount_of(balance: Balance, asset: Asset) -> Result<u128, ContractError> {
    match asset {
        Asset::Native(denom) => match balance {
            Balance::Native(coins) => if native_amount(coins@, denom@) == 0 {
                Err(ContractError::ZeroNativeInput)
            } else {
                Ok(native_amount(coins@, denom@))
            },
            Balance::Token(_) => Err(ContractError::AssetTypeMismatch),
        },
        Asset::Token(address) => match balance {
            Balance::Native(_) => Err(ContractError::AssetTypeMismatch),
            Balance::Token(t) => if t.address@ != address@ {
                Err(ContractError::AssetTypeMismatch)
            } else if t.amount == 0 {
                Err(ContractError::ZeroTokenInput)
            } else {
                Ok(t.amount)
            },
        },
    }
}

/// `m` pays `amount` of native `denom` to `to`.
pub open spec fn is_bank_send(m: Transfer, to: Seq<char>, denom: Seq<char>, amount: nat) -> bool {
    &&& m matches Transfer::BankSend { to_address, denom: d, amount: a }
    &&& to_address@ == to
    &&& d@ == denom
    &&& a == amount
}

/// `m` calls the cw20 contract at `token` to transfer `amount` to `recipient`,
/// attaching no funds.
pub open spec fn is_token_transfer(m: Transfer, token: Seq<char>, recipient: Seq<char>, amount: nat) -> bool {
    &&& m matches Transfer::WasmExecute { contract_addr, msg, funds }
    &&& contract_addr@ == token
    &&& msg@ == cw20_transfer_json(recipient, amount)
    &&& funds@.len() == 0
}

/// The quantity that `balance` supplies of `asset`.
pub fn get_amount_of_denom(balance: &Balance, asset: &Asset) -> (r: Result<u128, ContractError>)
    ensures
        r == amount_of(*balance, *asset),
{
    match asset {
        Asset::Native(denom) => match balance {
            Balance::Native(coins) => {
                let mut i: usize = 0;
                let mut found: u128 = 0;
                while i < coins.len()
                    invariant_except_break
                        found == 0,
                    invariant
                        i <= coins.len(),
                        first_amount_from(coins@, denom@, 0) == first_amount_from(coins@, denom@, i as int),
                    ensures
                        found == native_amount(coins@, denom@),
                    decreases coins.len() - i,
                {
                    if coins[i].denom == *denom {
                        found = coins[i].amount;
                        break;
                    }
                    i = i + 1;
                }
                if found == 0 {
                    Err(ContractError::ZeroNativeInput)
                } else {
                    Ok(found)
                }
            },
            Balance::Token(_) => Err(ContractError::AssetTypeMismatch),
        },
        Asset::Token(address) => match balance {
            Balance::Native(_) => Err(ContractError::AssetTypeMismatch),
            Balance::Token(t) => {
                if !(t.address == *address) {
                    Err(ContractError::AssetTypeMismatch)
                } else if t.amount == 0 {
                    Err(ContractError::ZeroTokenInput)
                } else {
                    Ok(t.amount)
                }
            },
        },
    }
}

/// The call of the token contract at `contract_addr` with the encoded transfer
/// message, attaching no funds; an encoding failure is passed on.
pub fn token_transfer(contract_addr: String, encoded: Result<Vec<u8>, String>) -> (r: Result<Transfer, ContractError>)
    ensures
        encoded matches Ok(bytes) ==> {
            &&& r matches Ok(Transfer::WasmExecute { contract_addr: c, msg, funds })
            &&& c == contract_addr
            &&& msg == bytes
            &&& funds@.len() == 0
        },
        encoded matches Err(reason) ==> r == Err::<Transfer, ContractError>(
            ContractError::EncodingFailed { reason },
        ),
{
    match encoded {
        Ok(msg) => Ok(Transfer::WasmExecute { contract_addr, msg, funds: Vec::new() }),
        Err(reason) => Err(ContractError::EncodingFailed { reason }),
    }
}

/// The transfer of `amount` of `denom` to `receiver`: a bank payment for a
/// native coin, a call of the token contract's `Transfer` for a cw20 token.
/// It never fails, and a zero amount still gives a transfer.
pub fn transfer_token_message(denom: Asset, amount: u128, receiver: String) -> (r: Result<Transfer, ContractError>)
    ensures
        denom matches Asset::Native(d) ==> r is Ok && is_bank_send(r->Ok_0, receiver@, d@, amount as nat),
        denom matches Asset::Token(token) ==> r is Ok && is_token_transfer(r->Ok_0, token@, receiver@, amount as nat),
{
    match denom {
        Asset::Native(native) => Ok(Transfer::BankSend { to_address: receiver, denom: native, amount }),
        Asset::Token(token) => token_transfer(token, encode_cw20_transfer(&receiver, amount)),
    }
}

/// The query that asks what `holder` holds of `denom`.
pub open spec fn balance_query_of(denom: Asset, holder: String) -> BalanceQuery {
    match denom {
        Asset::Native(d) => BalanceQuery::Bank { address: holder, denom: d },
        Asset::Token(token) => BalanceQuery::Cw20 { token, address: holder },
    }
}

/// The query that asks what `holder` holds of `denom`: the bank for a native
/// coin, the token contract for a cw20 token.
pub fn balance_query(denom: &Asset, holder: &String) -> (r: BalanceQuery)
    ensures
        r == balance_query_of(*denom, *holder),
{
    match denom {
        Asset::Native(d) => BalanceQuery::Bank { address: holder.clone(), denom: d.clone() },
        Asset::Token(token) => BalanceQuery::Cw20 { token: token.clone(), address: holder.clone() },
    }
}

} // verus!
