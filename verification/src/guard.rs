//! The checks that stand between a request and its effect: who may configure, whether
//! the NFT contract is configured, and which payments are acceptable.

use vstd::prelude::*;
use crate::coin::{Coin, CoinView};
use crate::error::ContractError;
use crate::state::{State, StateView};

verus! {

/// The one denomination in which a mint is paid.
pub const ACCEPTED_DENOM: &'static str = "ujunox";

/// The verdict on the caller of an admin-only command: only the admin passes.
pub open spec fn admin_fault(sender: Seq<char>, state: StateView) -> Option<ContractError> {
    if sender == state.admin {
        None
    } else {
        Some(ContractError::Unauthorized {})
    }
}

/// The verdict on the configuration before a mint: the NFT contract must have been
/// named.
pub open spec fn nft_contract_fault(state: StateView) -> Option<ContractError> {
    if state.nft_contract_is_set() {
        None
    } else {
        Some(ContractError::EmptyNftAddress {})
    }
}

/// What is wrong with a single coin of a payment, if anything: another denomination
/// than the accepted one, or the accepted denomination with amount zero.
pub open spec fn coin_fault(coin: CoinView) -> Option<ContractError> {
    if coin.denom != ACCEPTED_DENOM@ {
        Some(ContractError::UnmatchDenom {})
    } else if coin.amount == 0 {
        Some(ContractError::InsufficientFunds {})
    } else {
        None
    }
}

/// The fault of the first faulty coin among `funds[start..]`, or `None` where every
/// coin from `start` on is acceptable.
pub open spec fn first_fault_from(funds: Seq<CoinView>, start: int) -> Option<ContractError>
    decreases funds.len() - start,
{
    if start < 0 || start >= funds.len() {
        None
    } else if coin_fault(funds[start]) is Some {
        coin_fault(funds[start])
    } else {
        first_fault_from(funds, start + 1)
    }
}

/// The verdict on a whole payment: the fault of its first faulty coin. A payment of
/// no coins has no fault.
pub open spec fn funds_fault(funds: Seq<CoinView>) -> Option<ContractError> {
    first_fault_from(funds, 0)
}

/// The result of a check whose verdict is `fault`.
pub open spec fn verdict(fault: Option<ContractError>) -> Result<(), ContractError> {
    match fault {
        Some(e) => Err(e),
        None => Ok(()),
    }
}

/// Checks that `sender` is the admin of `state`, by comparing the two identities.
pub fn check_admin(sender: &String, state: &State) -> (r: Result<(), ContractError>)
    ensures
        r == verdict(admin_fault(sender@, state@)),
{
    if *sender == state.admin {
        Ok(())
    } else {
        Err(ContractError::Unauthorized {})
    }
}

/// Checks that the NFT contract of `state` has been named.
pub fn check_nft_contract(state: &State) -> (r: Result<(), ContractError>)
    ensures
        r == verdict(nft_contract_fault(state@)),
{
    if state.nft_contract.as_str().is_empty() {
        Err(ContractError::EmptyNftAddress {})
    } else {
        Ok(())
    }
}

/// Checks a payment coin by coin, in order, and stops at the first faulty one. The
/// payment passes exactly when every coin is of the accepted denomination and of a
/// positive amount; a payment of no coins passes.
pub fn check_funds(funds: &Vec<Coin>) -> (r: Result<(), ContractError>)
    ensures
        r == verdict(funds_fault(funds.deep_view())),
        r is Ok <==> forall|i: int|
            0 <= i < funds.len() ==> (#[trigger] funds[i]).denom@ == ACCEPTED_DENOM@
                && funds[i].amount > 0,
{
    let accepted = ACCEPTED_DENOM.to_owned();
    let mut i: usize = 0;
    while i < funds.len()
        invariant
            i <= funds.len(),
            accepted@ == ACCEPTED_DENOM@,
            funds_fault(funds.deep_view()) == first_fault_from(funds.deep_view(), i as int),
            forall|j: int|
                0 <= j < i ==> (#[trigger] funds[j]).denom@ == ACCEPTED_DENOM@ && funds[j].amount
                    > 0,
        decreases funds.len() - i,
    {
        let coin = &funds[i];
        assert(funds.deep_view()[i as int] == coin@);
        if coin.denom != accepted {
            return Err(ContractError::UnmatchDenom {});
        } else if coin.amount == 0 {
            return Err(ContractError::InsufficientFunds {});
        }
        i += 1;
    }
    Ok(())
}

/// The first faulty coin decides. If the coin at `at` has the fault `fault` and every
/// coin from `start` up to it is either acceptable or has that same fault, then
/// `fault` is the verdict on the coins from `start` on.
pub proof fn lemma_first_fault_from(
    funds: Seq<CoinView>,
    start: int,
    at: int,
    fault: ContractError,
)
    requires
        0 <= start <= at < funds.len(),
        coin_fault(funds[at]) == Some(fault),
        forall|j: int|
            start <= j < at ==> coin_fault(#[trigger] funds[j]) is None || coin_fault(funds[j])
                == Some(fault),
    ensures
        first_fault_from(funds, start) == Some(fault),
    decreases at - start,
{
    if start < at && coin_fault(funds[start]) is None {
        lemma_first_fault_from(funds, start + 1, at, fault);
    }
}

/// A verdict against the coins from `start` on is the fault of one of them, and no
/// coin between `start` and that one has a fault.
pub proof fn lemma_fault_has_a_first_coin(funds: Seq<CoinView>, start: int) -> (at: int)
    requires
        0 <= start,
        first_fault_from(funds, start) is Some,
    ensures
        start <= at < funds.len(),
        coin_fault(funds[at]) == first_fault_from(funds, start),
        forall|j: int| start <= j < at ==> coin_fault(#[trigger] funds[j]) is None,
    decreases funds.len() - start,
{
    if coin_fault(funds[start]) is Some {
        start
    } else {
        lemma_fault_has_a_first_coin(funds, start + 1)
    }
}

/// The coins from `start` on have no fault exactly when none of them has one.
pub proof fn lemma_no_fault_from(funds: Seq<CoinView>, start: int)
    requires
        0 <= start,
    ensures
        first_fault_from(funds, start) is None <==> forall|i: int|
            start <= i < funds.len() ==> coin_fault(#[trigger] funds[i]) is None,
    decreases funds.len() - start,
{
    if start < funds.len() {
        lemma_no_fault_from(funds, start + 1);
    }
}

/// A payment has no fault exactly when each of its coins is of the accepted
/// denomination and of a positive amount. So a payment of no coins has none.
pub proof fn lemma_no_fault_iff_every_coin_passes(funds: Seq<CoinView>)
    ensures
        funds_fault(funds) is None <==> forall|i: int|
            0 <= i < funds.len() ==> (#[trigger] funds[i]).denom == ACCEPTED_DENOM@
                && funds[i].amount > 0,
        funds.len() == 0 ==> funds_fault(funds) is None,
{
    lemma_no_fault_from(funds, 0);
    assert forall|i: int| 0 <= i < funds.len() implies (coin_fault(#[trigger] funds[i]) is None
        <==> funds[i].denom == ACCEPTED_DENOM@ && funds[i].amount > 0) by {}
}

} // verus!
