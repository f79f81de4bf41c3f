//! The calls into outside crates that the contract's logic makes: the JSON
//! encoding of the NFT contract's messages and the decoding of the reply to
//! an instantiation.
use cosmwasm_std::{to_json_binary, Empty, StdError};
use cw721_base::msg::ExecuteMsg as Cw721ExecuteMsg;
use cw721_base::msg::InstantiateMsg as Cw721InstantiateMsg;
use vstd::prelude::*;

verus! {

/// `cosmwasm_std::StdError`, the error type of the encoding calls.
#[verifier::external_type_specification]
#[verifier::external_body]
pub struct ExStdError(StdError);

/// The JSON bytes of a `cw721_base` instantiate message with this name,
/// symbol and minter.
pub uninterp spec fn cw721_instantiate_json(name: Seq<char>, symbol: Seq<char>, minter: Seq<char>) -> Seq<u8>;

/// The JSON bytes of a `cw721_base` mint message for this token id, owner
/// and token URI, with no extension.
pub uninterp spec fn cw721_mint_json(token_id: Seq<char>, owner: Seq<char>, token_uri: Seq<char>) -> Seq<u8>;

/// The JSON bytes of a `cw721_base` transfer message for this recipient and
/// token id.
pub uninterp spec fn cw721_transfer_json(recipient: Seq<char>, token_id: Seq<char>) -> Seq<u8>;

/// The contract address that the protobuf-encoded answer to an
/// instantiation names, or none when the bytes do not decode.
pub uninterp spec fn instantiated_contract_address(data: Seq<u8>) -> Option<Seq<char>>;

/// `cosmwasm_std::to_json_binary` on `cw721_base::msg::InstantiateMsg`.
/// Claimed: it succeeds (its JSON serializer fails on no string or struct),
/// and the bytes are those named by `cw721_instantiate_json` for the three
/// fields.
#[verifier::external_body]
pub(crate) fn encode_cw721_instantiate(name: String, symbol: String, minter: String) -> (r: Result<Vec<u8>, StdError>)
    ensures
        r is Ok,
        r matches Ok(b) ==> b@ == cw721_instantiate_json(name@, symbol@, minter@),
{
    match to_json_binary(&Cw721InstantiateMsg { name, symbol, minter }) {
        Ok(b) => Ok(b.0),
        Err(e) => Err(e),
    }
}

/// `cosmwasm_std::to_json_binary` on the `Mint` variant of
/// `cw721_base::msg::ExecuteMsg`, with `Some(token_uri)` and a unit
/// extension. Claimed: it succeeds (its JSON serializer fails on no string,
/// option, unit or struct variant), and the bytes are those named by
/// `cw721_mint_json`.
#[verifier::external_body]
pub(crate) fn encode_cw721_mint(token_id: String, owner: String, token_uri: String) -> (r: Result<Vec<u8>, StdError>)
    ensures
        r is Ok,
        r matches Ok(b) ==> b@ == cw721_mint_json(token_id@, owner@, token_uri@),
{
    let msg = Cw721ExecuteMsg::<(), Empty>::Mint { token_id, owner, token_uri: Some(token_uri), extension: () };
    match to_json_binary(&msg) {
        Ok(b) => Ok(b.0),
        Err(e) => Err(e),
    }
}

/// `cosmwasm_std::to_json_binary` on the `TransferNft` variant of
/// `cw721_base::msg::ExecuteMsg`. Claimed: it succeeds (its JSON serializer
/// fails on no string or struct variant), and the bytes are those named by
/// `cw721_transfer_json`.
#[verifier::external_body]
pub(crate) fn encode_cw721_transfer(recipient: String, token_id: String) -> (r: Result<Vec<u8>, StdError>)
    ensures
        r is Ok,
        r matches Ok(b) ==> b@ == cw721_transfer_json(recipient@, token_id@),
{
    let msg = Cw721ExecuteMsg::<String, String>::TransferNft { recipient, token_id };
    match to_json_binary(&msg) {
        Ok(b) => Ok(b.0),
        Err(e) => Err(e),
    }
}

/// `cw_utils::parse_instantiate_response_data`. Claimed: it yields a
/// contract address exactly when `instantiated_contract_address` names one,
/// and then that address.
#[verifier::external_body]
pub(crate) fn decode_instantiate_response(data: &Vec<u8>) -> (r: Option<String>)
    ensures
        match r {
            Some(a) => instantiated_contract_address(data@) == Some(a@),
            None => instantiated_contract_address(data@) is None,
        },
{
    match cw_utils::parse_instantiate_response_data(data.as_slice()) {
        Ok(resp) => Some(resp.contract_address),
        Err(_) => None,
    }
}

} // verus!
