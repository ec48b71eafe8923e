//! Fixed-ratio collateral vault: native deposits are answered with a managed
//! token, and the owner withdraws the collected native coins.

pub mod asset;
pub mod contract;
pub mod error;
mod host;
pub mod laws;
pub mod msg;
pub mod state;

pub use asset::{
    balance_query, get_amount_of_denom, token_transfer, transfer_token_message, Asset, Balance, BalanceQuery, Coin,
    TokenBalance, Transfer,
};
pub use contract::{
    execute, execute_deposit, execute_update_config, execute_withdraw, finish_withdraw,
    instantiate, query, query_get_config, DEFAULT_CR, DEPOSIT_DENOM, WITHDRAW_DENOM,
};
pub use error::ContractError;
pub use host::cw20_transfer_json;
pub use msg::{
    Attribute, ConfigResponse, ExecuteMsg, InstantiateMsg, MessageInfo, Outcome, QueryMsg,
    Response,
};
pub use state::{Config, ConfigStore};
