//! The persistent state of one contract instance, and the store that holds it.

use vstd::prelude::*;
use crate::error::ContractError;

verus! {

/// What the contract remembers between commands.
#[derive(Debug, PartialEq, Eq)]
pub struct State {
    /// Who may configure the contract: the caller that initialized it.
    pub admin: String,
    /// The NFT contract to which mints are delegated. Empty until the admin sets it.
    pub nft_contract: String,
}

/// The mathematical value of a [`State`].
pub struct StateView {
    pub admin: Seq<char>,
    pub nft_contract: Seq<char>,
}

impl View for State {
    type V = StateView;

    open spec fn view(&self) -> StateView {
        StateView { admin: self.admin@, nft_contract: self.nft_contract@ }
    }
}

impl Clone for State {
    fn clone(&self) -> (copy: State)
        ensures
            copy@ == self@,
    {
        State { admin: self.admin.clone(), nft_contract: self.nft_contract.clone() }
    }
}

impl StateView {
    /// Whether the NFT contract has been named yet.
    pub open spec fn nft_contract_is_set(self) -> bool {
        self.nft_contract.len() > 0
    }
}

/// The handle on the state of one contract instance. It is empty until the contract
/// is initialized, and holds exactly one [`State`] from then on.
#[derive(Debug)]
pub struct Store {
    slot: Option<State>,
}

impl View for Store {
    type V = Option<StateView>;

    closed spec fn view(&self) -> Option<StateView> {
        match self.slot {
            Some(state) => Some(state@),
            None => None,
        }
    }
}

/// What a store reads back as: the state it holds, or, if it holds none, the failure
/// of the layer below.
pub open spec fn loaded(store: Option<StateView>) -> Result<StateView, ContractError> {
    match store {
        Some(state) => Ok(state),
        None => Err(ContractError::Std {}),
    }
}

/// What a store holds after `state` was saved to it, whatever it held before.
pub open spec fn saved(store: Option<StateView>, state: StateView) -> Option<StateView> {
    Some(state)
}

impl Store {
    /// The store of a contract that has not been initialized.
    pub fn new() -> (store: Store)
        ensures
            store@ is None,
    {
        Store { slot: None }
    }

    /// Reads the state. Fails with [`ContractError::Std`] exactly when the store is
    /// empty.
    pub fn load(&self) -> (r: Result<State, ContractError>)
        ensures
            match loaded(self@) {
                Ok(state) => r matches Ok(s) && s@ == state,
                Err(e) => r matches Err(f) && f == e,
            },
    {
        match &self.slot {
            Some(state) => Ok(state.clone()),
            None => Err(ContractError::Std {}),
        }
    }

    /// Writes `state` over whatever the store held.
    pub fn save(&mut self, state: State)
        ensures
            final(self)@ == saved(old(self)@, state@),
    {
        self.slot = Some(state);
    }
}

/// A state that was saved is the state that is read back.
pub proof fn lemma_save_then_load(store: Option<StateView>, state: StateView)
    ensures
        loaded(saved(store, state)) == Ok::<StateView, ContractError>(state),
{
}

/// Saving the same state twice leaves the store as saving it once does.
pub proof fn lemma_save_is_idempotent(store: Option<StateView>, state: StateView)
    ensures
        saved(saved(store, state), state) == saved(store, state),
{
}

} // verus!
