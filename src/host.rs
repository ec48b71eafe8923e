//! Calls into the host chain's libraries.
use vstd::prelude::*;

verus! {

/// The JSON bytes of cw20's `Transfer { recipient, amount }` execute message.
pub uninterp spec fn cw20_transfer_json(recipient: Seq<char>, amount: nat) -> Seq<u8>;

/// Relies on `cosmwasm_std::to_json_binary`, which encodes through
/// `serde_json_wasm::to_vec`: the bytes are the JSON encoding of
/// `Cw20ExecuteMsg::Transfer`, which depends on its fields alone. The encoding
/// cannot fail here: a struct variant of a string and a `Uint128` (written as a
/// decimal string) only ever pushes bytes.
#[verifier::external_body]
pub(crate) fn encode_cw20_transfer(recipient: &String, amount: u128) -> (r: Result<Vec<u8>, String>)
    ensures
        r is Ok,
        r->Ok_0@ == cw20_transfer_json(recipient@, amount as nat),
{
    let msg = cw20::Cw20ExecuteMsg::Transfer {
        recipient: recipient.clone(),
        amount: cosmwasm_std::Uint128::new(amount),
    };
    cosmwasm_std::to_json_binary(&msg).map(|b| b.to_vec()).map_err(|e| e.to_string())
}

} // verus!
