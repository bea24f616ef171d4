//! The requests that the contract understands, who sends them, and the answer to its
//! one query.

use vstd::prelude::*;
use cw721_metadata_onchain::Metadata;
use crate::coin::{Coin, CoinView};
use crate::state::StateView;

verus! {

/// Who sent a command, and the payment attached to it.
#[derive(Debug, PartialEq, Eq)]
pub struct MessageInfo {
    pub sender: String,
    pub funds: Vec<Coin>,
}

/// The mathematical value of a [`MessageInfo`].
pub struct MessageInfoView {
    pub sender: Seq<char>,
    pub funds: Seq<CoinView>,
}

impl View for MessageInfo {
    type V = MessageInfoView;

    open spec fn view(&self) -> MessageInfoView {
        MessageInfoView { sender: self.sender@, funds: self.funds.deep_view() }
    }
}

/// A command: a request that may change the state or emit instructions.
#[derive(Debug, PartialEq)]
pub enum ExecuteMsg {
    /// Name the NFT contract to which mints are delegated. Admin only.
    SetNftContract { address: String },
    /// Ask for the token `token_id` to be minted to `owner`. Open to every caller;
    /// what is attached pays for it. `extension` is the token's metadata in the NFT
    /// contract's own shape, handed on as it came.
    MintNft {
        token_id: String,
        owner: String,
        token_uri: Option<String>,
        extension: Option<Metadata>,
    },
}

/// The mathematical value of an [`ExecuteMsg`].
pub enum ExecuteMsgView {
    SetNftContract { address: Seq<char> },
    MintNft {
        token_id: Seq<char>,
        owner: Seq<char>,
        token_uri: Option<Seq<char>>,
        extension: Option<Metadata>,
    },
}

impl View for ExecuteMsg {
    type V = ExecuteMsgView;

    open spec fn view(&self) -> ExecuteMsgView {
        match *self {
            ExecuteMsg::SetNftContract { address } => ExecuteMsgView::SetNftContract {
                address: address@,
            },
            ExecuteMsg::MintNft { token_id, owner, token_uri, extension } => {
                ExecuteMsgView::MintNft {
                    token_id: token_id@,
                    owner: owner@,
                    token_uri: token_uri.deep_view(),
                    extension,
                }
            },
        }
    }
}

/// A query: a request that only reads.
#[derive(Debug, Clone, Copy, PartialEq, Eq, Structural)]
pub enum QueryMsg {
    /// Ask for the stored state.
    GetState {},
}

/// The answer to [`QueryMsg::GetState`]: the two stored addresses as they are.
#[derive(Debug, PartialEq, Eq)]
pub struct StateResponse {
    pub admin: String,
    pub nft_contract: String,
}

impl View for StateResponse {
    type V = StateView;

    open spec fn view(&self) -> StateView {
        StateView { admin: self.admin@, nft_contract: self.nft_contract@ }
    }
}

} // verus!
