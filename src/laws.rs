//! Properties that hold across the operations, proved from their contracts.
use crate::asset::{amount_of, first_amount_from, native_amount, Asset, Balance, Coin, TokenBalance};
use crate::contract::{
    config_view, deposit_post, initial_config, is_deposit_response, update_post, DEPOSIT_DENOM,
    DEFAULT_CR,
};
use crate::error::ContractError;
use crate::msg::{ConfigResponse, MessageInfo, Response};
use crate::state::ConfigStore;
use vstd::prelude::*;

verus! {

/// A deposit that carries a nonzero amount of the deposit denomination, where
/// that amount times the ratio fits in 128 bits, issues exactly that product
/// of the managed token to the sender.
pub proof fn lemma_deposit_issues_amount_times_ratio(
    store: ConfigStore,
    receiver: String,
    info: MessageInfo,
    r: Result<Response, ContractError>,
)
    requires
        deposit_post(store, receiver, info, r),
        store.config is Some,
        native_amount(info.funds@, DEPOSIT_DENOM@) != 0,
        native_amount(info.funds@, DEPOSIT_DENOM@) * store.config->Some_0.cr <= u128::MAX,
    ensures
        r is Ok,
        is_deposit_response(
            r->Ok_0,
            store.config->Some_0.token_address@,
            info.sender@,
            (native_amount(info.funds@, DEPOSIT_DENOM@) * store.config->Some_0.cr) as nat,
            receiver@,
        ),
{
}

/// Where no coin of the deposit denomination from `i` on has a nonzero
/// amount, the amount found from `i` is zero.
proof fn lemma_no_coin_from(coins: Seq<Coin>, denom: Seq<char>, i: int)
    requires
        forall|j: int| 0 <= j < coins.len() && (#[trigger] coins[j]).denom@ == denom ==> coins[j].amount == 0,
    ensures
        first_amount_from(coins, denom, i) == 0,
    decreases coins.len() - i,
{
    if 0 <= i < coins.len() {
        lemma_no_coin_from(coins, denom, i + 1);
    }
}

/// A deposit whose coins of the deposit denomination are all zero, or that
/// carries none of that denomination, fails with `ZeroNativeInput`.
pub proof fn lemma_deposit_without_coins_fails(
    store: ConfigStore,
    receiver: String,
    info: MessageInfo,
    r: Result<Response, ContractError>,
)
    requires
        deposit_post(store, receiver, info, r),
        store.config is Some,
        forall|j: int|
            0 <= j < info.funds@.len() && (#[trigger] info.funds@[j]).denom@ == DEPOSIT_DENOM@
                ==> info.funds@[j].amount == 0,
    ensures
        r == Err::<Response, ContractError>(ContractError::ZeroNativeInput),
{
    lemma_no_coin_from(info.funds@, DEPOSIT_DENOM@, 0);
}

/// A token balance offered where a native coin is expected is refused as the
/// wrong kind of asset, whatever its amount.
pub proof fn lemma_token_balance_for_native_fails(balance: TokenBalance, denom: String)
    ensures
        amount_of(Balance::Token(balance), Asset::Native(denom)) == Err::<u128, ContractError>(
            ContractError::AssetTypeMismatch,
        ),
{
}

/// After the owner's update, the configuration read back is exactly the new
/// owner, token address and ratio.
pub proof fn lemma_update_then_get(
    before: ConfigStore,
    after: ConfigStore,
    sender: String,
    new_owner: String,
    token_address: String,
    cr: u32,
    r: Result<Response, ContractError>,
)
    requires
        update_post(before, after, sender, new_owner, token_address, cr, r),
        before.config matches Some(c) && sender@ == c.owner@,
    ensures
        r is Ok,
        config_view(after) == Ok::<ConfigResponse, ContractError>(
            ConfigResponse { owner: new_owner, token_address, cr },
        ),
{
}

/// Right after instantiation, the configuration read back is the instantiator
/// as owner, the given token address and the default ratio.
pub proof fn lemma_instantiate_then_get(store: ConfigStore, sender: String, token_address: String)
    requires
        store.config == Some(initial_config(sender, token_address)),
    ensures
        config_view(store) == Ok::<ConfigResponse, ContractError>(
            ConfigResponse { owner: sender, token_address, cr: DEFAULT_CR },
        ),
        DEFAULT_CR == 200,
{
}

} // verus!
