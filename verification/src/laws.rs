//! What holds of the contract whatever the requests are. Each statement is about the
//! outcome functions by which the commands and the query are specified, so it holds
//! of every run of the executable functions.

use vstd::prelude::*;
use cw721_metadata_onchain::Metadata;
use crate::contract::{
    execute_outcome, instantiate_outcome, mint_effects, query_outcome, reply, Outcome,
};
use crate::encoding::mint_msg_json;
use crate::error::ContractError;
use crate::guard::{funds_fault, lemma_first_fault_from, ACCEPTED_DENOM};
use crate::msg::{ExecuteMsgView, MessageInfoView, StateResponse};
use crate::state::StateView;

verus! {

/// Only the admin names the NFT contract. From any other caller the command fails
/// with `Unauthorized`, whatever the address, and the store is as it was.
pub proof fn lemma_set_nft_contract_is_admin_only(
    state: StateView,
    info: MessageInfoView,
    address: Seq<char>,
    address_is_valid: bool,
)
    requires
        info.sender != state.admin,
    ensures
        execute_outcome(
            Some(state),
            info,
            (ExecuteMsgView::SetNftContract { address }),
            address_is_valid,
        ) == Outcome::failure(Some(state), ContractError::Unauthorized {}),
{
}

/// While no NFT contract is named, every mint fails with `EmptyNftAddress`, whoever
/// asks and whatever is attached.
pub proof fn lemma_mint_waits_for_nft_contract(
    state: StateView,
    info: MessageInfoView,
    msg: ExecuteMsgView,
    address_is_valid: bool,
)
    requires
        msg is MintNft,
        !state.nft_contract_is_set(),
    ensures
        execute_outcome(Some(state), info, msg, address_is_valid) == Outcome::failure(
            Some(state),
            ContractError::EmptyNftAddress {},
        ),
{
}

/// A mint is open to every caller: who asks plays no part in the outcome, and neither
/// does the verdict on addresses.
pub proof fn lemma_mint_is_open_to_every_caller(
    store: Option<StateView>,
    info: MessageInfoView,
    msg: ExecuteMsgView,
    address_is_valid: bool,
    other_sender: Seq<char>,
    other_verdict: bool,
)
    requires
        msg is MintNft,
    ensures
        execute_outcome(store, info, msg, address_is_valid) == execute_outcome(
            store,
            (MessageInfoView { sender: other_sender, funds: info.funds }),
            msg,
            other_verdict,
        ),
{
}

/// A coin of another denomination than the accepted one makes a mint fail with
/// `UnmatchDenom`, whatever its amount, once the NFT contract is named. The first
/// faulty coin decides, so this holds unless a coin before it is of the accepted
/// denomination with amount zero.
pub proof fn lemma_foreign_denom_is_refused(
    state: StateView,
    info: MessageInfoView,
    msg: ExecuteMsgView,
    address_is_valid: bool,
    at: int,
)
    requires
        msg is MintNft,
        state.nft_contract_is_set(),
        0 <= at < info.funds.len(),
        info.funds[at].denom != ACCEPTED_DENOM@,
        forall|j: int|
            0 <= j < at ==> !((#[trigger] info.funds[j]).denom == ACCEPTED_DENOM@
                && info.funds[j].amount == 0),
    ensures
        execute_outcome(Some(state), info, msg, address_is_valid) == Outcome::failure(
            Some(state),
            ContractError::UnmatchDenom {},
        ),
{
    lemma_first_fault_from(info.funds, 0, at, ContractError::UnmatchDenom {});
}

/// A coin of the accepted denomination with amount zero makes a mint fail with
/// `InsufficientFunds`, once the NFT contract is named. The first faulty coin
/// decides, so this holds unless a coin before it is of another denomination.
pub proof fn lemma_zero_amount_is_refused(
    state: StateView,
    info: MessageInfoView,
    msg: ExecuteMsgView,
    address_is_valid: bool,
    at: int,
)
    requires
        msg is MintNft,
        state.nft_contract_is_set(),
        0 <= at < info.funds.len(),
        info.funds[at].denom == ACCEPTED_DENOM@,
        info.funds[at].amount == 0,
        forall|j: int| 0 <= j < at ==> (#[trigger] info.funds[j]).denom == ACCEPTED_DENOM@,
    ensures
        execute_outcome(Some(state), info, msg, address_is_valid) == Outcome::failure(
            Some(state),
            ContractError::InsufficientFunds {},
        ),
{
    lemma_first_fault_from(info.funds, 0, at, ContractError::InsufficientFunds {});
}

/// From initialization to a mint. After `admin` initialized the contract and named
/// `nft_contract`, a non-empty address that the host found well-formed, a mint by any
/// caller whose payment has no fault leaves the state alone and, wherever the mint
/// message has an encoding, asks for exactly two things: the call into `nft_contract`
/// with that encoding, and the transfer of the whole payment to `admin`.
pub proof fn lemma_mint_after_setup(
    admin: MessageInfoView,
    nft_contract: Seq<char>,
    caller: MessageInfoView,
    token_id: Seq<char>,
    owner: Seq<char>,
    token_uri: Option<Seq<char>>,
    extension: Option<Metadata>,
)
    requires
        nft_contract.len() > 0,
        funds_fault(caller.funds) is None,
    ensures
        ({
            let initialized = instantiate_outcome(None, admin).store;
            let configured = execute_outcome(
                initialized,
                admin,
                ExecuteMsgView::SetNftContract { address: nft_contract },
                true,
            ).store;
            let minted = execute_outcome(
                configured,
                caller,
                ExecuteMsgView::MintNft { token_id, owner, token_uri, extension },
                true,
            );
            let state = StateView { admin: admin.sender, nft_contract };
            &&& configured == Some(state)
            &&& minted.store == configured
            &&& minted.result == match mint_msg_json(token_id, owner, token_uri, extension) {
                Some(encoded) => Ok(mint_effects(state, caller.funds, encoded)),
                None => Err(ContractError::Std {}),
            }
        }),
{
}

/// Two answers to the state query on the same store are the same answer.
pub proof fn lemma_query_is_repeatable(
    store: Option<StateView>,
    first: Result<StateResponse, ContractError>,
    second: Result<StateResponse, ContractError>,
)
    requires
        reply(first) == query_outcome(store),
        reply(second) == query_outcome(store),
    ensures
        reply(first) == reply(second),
{
}

/// A command that fails leaves the store as it was, and so does every mint.
pub proof fn lemma_failure_changes_nothing(
    store: Option<StateView>,
    info: MessageInfoView,
    msg: ExecuteMsgView,
    address_is_valid: bool,
)
    ensures
        execute_outcome(store, info, msg, address_is_valid).result is Err ==> execute_outcome(
            store,
            info,
            msg,
            address_is_valid,
        ).store == store,
        msg is MintNft ==> execute_outcome(store, info, msg, address_is_valid).store == store,
{
}

/// No command removes the state or replaces the admin.
pub proof fn lemma_admin_stays(
    state: StateView,
    info: MessageInfoView,
    msg: ExecuteMsgView,
    address_is_valid: bool,
)
    ensures
        execute_outcome(Some(state), info, msg, address_is_valid).store matches Some(after)
            && after.admin == state.admin,
{
}

/// The stored NFT contract changes only by a command of the admin, and only to the
/// address of that command, which the host found well-formed.
pub proof fn lemma_nft_contract_changes_by_admin_only(
    state: StateView,
    info: MessageInfoView,
    msg: ExecuteMsgView,
    address_is_valid: bool,
)
    ensures
        execute_outcome(Some(state), info, msg, address_is_valid).store != Some(state) ==> {
            &&& info.sender == state.admin
            &&& address_is_valid
            &&& msg matches ExecuteMsgView::SetNftContract { address }
            &&& execute_outcome(Some(state), info, msg, address_is_valid).store == Some(
                StateView { admin: state.admin, nft_contract: address },
            )
        },
{
}

/// One command as it reaches the contract: who sent it with what, the message, and
/// the host's verdict on the address in it.
pub struct Request {
    pub info: MessageInfoView,
    pub msg: ExecuteMsgView,
    pub address_is_valid: bool,
}

impl Request {
    /// Whether this is the command by which `admin` names `address` as the NFT
    /// contract, with an address that the host found well-formed.
    pub open spec fn names(self, admin: Seq<char>, address: Seq<char>) -> bool {
        &&& self.info.sender == admin
        &&& self.address_is_valid
        &&& self.msg == (ExecuteMsgView::SetNftContract { address })
    }
}

/// The store after the commands `requests` ran one after the other on `store`.
pub open spec fn store_after(store: Option<StateView>, requests: Seq<Request>) -> Option<
    StateView,
>
    decreases requests.len(),
{
    if requests.len() == 0 {
        store
    } else {
        let last = requests.last();
        execute_outcome(
            store_after(store, requests.drop_last()),
            last.info,
            last.msg,
            last.address_is_valid,
        ).store
    }
}

/// Through the whole life of a contract the state is never removed, the admin is the
/// one it began with, and the NFT contract is either the one it began with or an
/// address that the admin named and the host found well-formed.
pub proof fn lemma_state_through_life(state: StateView, requests: Seq<Request>)
    ensures
        store_after(Some(state), requests) matches Some(after) && {
            &&& after.admin == state.admin
            &&& (after.nft_contract == state.nft_contract || exists|i: int|
                0 <= i < requests.len() && (#[trigger] requests[i]).names(
                    state.admin,
                    after.nft_contract,
                ))
        },
    decreases requests.len(),
{
    if requests.len() > 0 {
        let earlier = requests.drop_last();
        let last = requests.last();
        lemma_state_through_life(state, earlier);
        let before = store_after(Some(state), earlier)->0;
        let after = store_after(Some(state), requests)->0;
        lemma_admin_stays(before, last.info, last.msg, last.address_is_valid);
        lemma_nft_contract_changes_by_admin_only(
            before,
            last.info,
            last.msg,
            last.address_is_valid,
        );
        if after == before {
            if before.nft_contract != state.nft_contract {
                let i = choose|i: int|
                    0 <= i < earlier.len() && (#[trigger] earlier[i]).names(
                        state.admin,
                        before.nft_contract,
                    );
                assert(requests[i] == earlier[i]);
            }
        } else {
            assert(requests[requests.len() - 1].names(state.admin, after.nft_contract));
        }
    }
}

} // verus!
