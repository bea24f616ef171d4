//! The wire form of the delegated mint. The message that the NFT contract expects is
//! defined and encoded by that contract's own crates. Nothing in this module is
//! proved: what it declares of that outside code is believed, and the mint command
//! rests on it.

use vstd::prelude::*;
use cosmwasm_std::{Empty, StdError};
use cw721_metadata_onchain::Metadata;

verus! {

/// `cw721_metadata_onchain::Metadata`: a token's metadata in the shape that the NFT
/// contract defines. The library never looks inside a value of it.
#[verifier::external_type_specification]
#[verifier::external_body]
pub struct ExMetadata(Metadata);

/// `cosmwasm_std::StdError`: the error that the encoder returns. The library never
/// looks inside a value of it.
#[verifier::external_type_specification]
#[verifier::external_body]
pub struct ExStdError(StdError);

/// The bytes that `cosmwasm_std::to_json_binary` gives for the message
/// `cw721_base::ExecuteMsg::Mint` with these four fields, or `None` where it gives an
/// error. Nothing more is claimed of it than that it depends on the fields alone.
pub uninterp spec fn mint_msg_json(
    token_id: Seq<char>,
    owner: Seq<char>,
    token_uri: Option<Seq<char>>,
    extension: Option<Metadata>,
) -> Option<Seq<u8>>;

/// Builds `cw721_base::ExecuteMsg::Mint` from the four fields and encodes it with
/// `cosmwasm_std::to_json_binary`. Believed, not proved: the outcome is the one that
/// [`mint_msg_json`] names, so equal fields always give equal bytes, or always an
/// error.
#[verifier::external_body]
pub(crate) fn encode_mint_msg(
    token_id: String,
    owner: String,
    token_uri: Option<String>,
    extension: Option<Metadata>,
) -> (r: Result<Vec<u8>, StdError>)
    ensures
        match r {
            Ok(bytes) => mint_msg_json(token_id@, owner@, token_uri.deep_view(), extension)
                == Some(bytes@),
            Err(_) => mint_msg_json(token_id@, owner@, token_uri.deep_view(), extension) is None,
        },
{
    let msg: cw721_base::ExecuteMsg<Option<Metadata>, Empty> =
        cw721_base::ExecuteMsg::Mint { token_id, owner, token_uri, extension };
    cosmwasm_std::to_json_binary(&msg).map(Vec::from)
}

} // verus!
