//! The commands and the query of the contract. Each runs to completion against the
//! store it is handed: it either succeeds as a whole or fails and leaves the store
//! as it was.

use vstd::prelude::*;
use cosmwasm_std::StdError;
use cw721_metadata_onchain::Metadata;
use crate::coin::{Coin, CoinView};
use crate::encoding::{encode_mint_msg, mint_msg_json};
use crate::error::ContractError;
use crate::guard::{
    admin_fault, check_admin, check_funds, check_nft_contract, funds_fault, nft_contract_fault,
};
use crate::msg::{
    ExecuteMsg, ExecuteMsgView, MessageInfo, MessageInfoView, QueryMsg, StateResponse,
};
use crate::response::{Effect, EffectView, Response, ResponseView};
use crate::state::{loaded, saved, State, StateView, Store};

verus! {

/// What a command leaves behind: the store after it, and its answer.
pub struct Outcome {
    pub store: Option<StateView>,
    pub result: Result<ResponseView, ContractError>,
}

impl Outcome {
    /// The outcome of a command that failed with `error` on `store`: nothing changed,
    /// nothing emitted.
    pub open spec fn failure(store: Option<StateView>, error: ContractError) -> Outcome {
        Outcome { store, result: Err(error) }
    }
}

/// The mathematical value of a command's answer.
pub open spec fn answer(r: Result<Response, ContractError>) -> Result<
    ResponseView,
    ContractError,
> {
    match r {
        Ok(response) => Ok(response@),
        Err(e) => Err(e),
    }
}

/// The mathematical value of a query's answer.
pub open spec fn reply(r: Result<StateResponse, ContractError>) -> Result<
    StateView,
    ContractError,
> {
    match r {
        Ok(response) => Ok(response@),
        Err(e) => Err(e),
    }
}

/// Initialization: the caller becomes the admin, and no NFT contract is named yet.
pub open spec fn instantiate_outcome(store: Option<StateView>, info: MessageInfoView) -> Outcome {
    Outcome {
        store: saved(store, StateView { admin: info.sender, nft_contract: Seq::empty() }),
        result: Ok(ResponseView::empty()),
    }
}

/// Naming the NFT contract: the store must hold a state, the caller must be its
/// admin, and the address must be well-formed, in this order. Then the address
/// replaces the stored one and the admin stays.
pub open spec fn set_nft_contract_outcome(
    store: Option<StateView>,
    info: MessageInfoView,
    address: Seq<char>,
    address_is_valid: bool,
) -> Outcome {
    match loaded(store) {
        Err(e) => Outcome::failure(store, e),
        Ok(state) => match admin_fault(info.sender, state) {
            Some(e) => Outcome::failure(store, e),
            None => if !address_is_valid {
                Outcome::failure(store, ContractError::InvalidAddress {})
            } else {
                Outcome {
                    store: saved(store, StateView { admin: state.admin, nft_contract: address }),
                    result: Ok(ResponseView::empty()),
                }
            },
        },
    }
}

/// The two instructions of a mint: first the call into the NFT contract with the
/// encoded mint message and no funds, then the transfer of the whole payment to the
/// admin.
pub open spec fn mint_effects(
    state: StateView,
    funds: Seq<CoinView>,
    msg: Seq<u8>,
) -> ResponseView {
    ResponseView {
        messages: seq![
            EffectView::Execute { contract_addr: state.nft_contract, msg, funds: Seq::empty() },
            EffectView::Send { to_address: state.admin, amount: funds },
        ],
    }
}

/// The answer to a mint that passed every check, given what encoding the mint
/// message gave.
pub open spec fn mint_response_outcome(
    state: StateView,
    funds: Seq<CoinView>,
    encoded: Option<Seq<u8>>,
) -> Result<ResponseView, ContractError> {
    match encoded {
        Some(msg) => Ok(mint_effects(state, funds, msg)),
        None => Err(ContractError::Std {}),
    }
}

/// The answer to a mint request: the store must hold a state, the NFT contract must
/// have been named, and the payment must have no fault, in this order. Who the
/// caller is plays no part. `encoded` is the encoding of the mint message.
pub open spec fn mint_nft_outcome(
    store: Option<StateView>,
    info: MessageInfoView,
    encoded: Option<Seq<u8>>,
) -> Result<ResponseView, ContractError> {
    match loaded(store) {
        Err(e) => Err(e),
        Ok(state) => match nft_contract_fault(state) {
            Some(e) => Err(e),
            None => match funds_fault(info.funds) {
                Some(e) => Err(e),
                None => mint_response_outcome(state, info.funds, encoded),
            },
        },
    }
}

/// The outcome of any command. A mint never changes the store.
pub open spec fn execute_outcome(
    store: Option<StateView>,
    info: MessageInfoView,
    msg: ExecuteMsgView,
    address_is_valid: bool,
) -> Outcome {
    match msg {
        ExecuteMsgView::SetNftContract { address } => set_nft_contract_outcome(
            store,
            info,
            address,
            address_is_valid,
        ),
        ExecuteMsgView::MintNft { token_id, owner, token_uri, extension } => Outcome {
            store,
            result: mint_nft_outcome(
                store,
                info,
                mint_msg_json(token_id, owner, token_uri, extension),
            ),
        },
    }
}

/// The answer to the state query: the stored state as it is.
pub open spec fn query_outcome(store: Option<StateView>) -> Result<StateView, ContractError> {
    loaded(store)
}

/// Initializes the contract: the sender of `info` becomes the admin, and the NFT
/// contract is left unset. Never fails.
pub fn instantiate(store: &mut Store, info: MessageInfo) -> (r: Result<Response, ContractError>)
    ensures
        final(store)@ == instantiate_outcome(old(store)@, info@).store,
        answer(r) == instantiate_outcome(old(store)@, info@).result,
{
    let state = State { admin: info.sender, nft_contract: String::new() };
    store.save(state);
    Ok(Response::new())
}

/// Runs one command against `store`.
///
/// `address_is_valid` is the host's verdict on the address of a
/// [`ExecuteMsg::SetNftContract`]: whether it is a well-formed identity. A mint does
/// not read it.
pub fn execute(
    store: &mut Store,
    info: MessageInfo,
    msg: ExecuteMsg,
    address_is_valid: bool,
) -> (r: Result<Response, ContractError>)
    ensures
        final(store)@ == execute_outcome(old(store)@, info@, msg@, address_is_valid).store,
        answer(r) == execute_outcome(old(store)@, info@, msg@, address_is_valid).result,
{
    match msg {
        ExecuteMsg::SetNftContract { address } => set_nft_contract(
            store,
            info,
            address,
            address_is_valid,
        ),
        ExecuteMsg::MintNft { token_id, owner, token_uri, extension } => mint_nft(
            store,
            info,
            token_id,
            owner,
            token_uri,
            extension,
        ),
    }
}

/// Names the NFT contract to which mints are delegated. Only the admin may do so, and
/// only with an address that the host found well-formed (`address_is_valid`).
pub fn set_nft_contract(
    store: &mut Store,
    info: MessageInfo,
    address: String,
    address_is_valid: bool,
) -> (r: Result<Response, ContractError>)
    ensures
        final(store)@ == set_nft_contract_outcome(
            old(store)@,
            info@,
            address@,
            address_is_valid,
        ).store,
        answer(r) == set_nft_contract_outcome(old(store)@, info@, address@, address_is_valid).result,
{
    let state = store.load()?;
    check_admin(&info.sender, &state)?;
    if !address_is_valid {
        return Err(ContractError::InvalidAddress {});
    }
    store.save(State { admin: state.admin, nft_contract: address });
    Ok(Response::new())
}

/// Asks for a mint: checks the configuration and the payment, then describes the
/// call into the NFT contract and the transfer of the payment to the admin. The
/// store is only read.
pub fn mint_nft(
    store: &Store,
    info: MessageInfo,
    token_id: String,
    owner: String,
    token_uri: Option<String>,
    extension: Option<Metadata>,
) -> (r: Result<Response, ContractError>)
    ensures
        answer(r) == mint_nft_outcome(
            store@,
            info@,
            mint_msg_json(token_id@, owner@, token_uri.deep_view(), extension),
        ),
{
    let state = store.load()?;
    check_nft_contract(&state)?;
    check_funds(&info.funds)?;
    let encoded = encode_mint_msg(token_id, owner, token_uri, extension);
    mint_response(state, info.funds, encoded)
}

/// Builds the answer to a mint that passed every check, from the encoding of the
/// mint message as the encoder returned it.
pub fn mint_response(
    state: State,
    funds: Vec<Coin>,
    encoded: Result<Vec<u8>, StdError>,
) -> (r: Result<Response, ContractError>)
    ensures
        answer(r) == mint_response_outcome(
            state@,
            funds.deep_view(),
            match encoded {
                Ok(msg) => Some(msg@),
                Err(_) => None,
            },
        ),
{
    let msg = match encoded {
        Ok(msg) => msg,
        Err(_) => {
            return Err(ContractError::Std {});
        },
    };
    let call = Effect::Execute { contract_addr: state.nft_contract, msg, funds: Vec::new() };
    let transfer = Effect::Send { to_address: state.admin, amount: funds };
    let mut messages: Vec<Effect> = Vec::new();
    messages.push(call);
    messages.push(transfer);
    let response = Response { messages };
    proof {
        assert(call@->Execute_funds =~= Seq::<CoinView>::empty());
        assert(response@.messages =~= mint_effects(state@, funds.deep_view(), msg@).messages);
    }
    Ok(response)
}

/// Answers a query. The store is only read.
pub fn query(store: &Store, msg: QueryMsg) -> (r: Result<StateResponse, ContractError>)
    ensures
        reply(r) == query_outcome(store@),
{
    match msg {
        QueryMsg::GetState {} => query_state(store),
    }
}

/// Reports the stored state as it is.
pub fn query_state(store: &Store) -> (r: Result<StateResponse, ContractError>)
    ensures
        reply(r) == query_outcome(store@),
{
    let state = store.load()?;
    Ok(StateResponse { admin: state.admin, nft_contract: state.nft_contract })
}

} // verus!
