//! What a command hands back: the instructions that the hosting runtime is to carry
//! out. The contract only describes them; it neither executes them nor learns how
//! they ended.

use vstd::prelude::*;
use crate::coin::{Coin, CoinView};

verus! {

/// One instruction to the hosting runtime.
#[derive(Debug, PartialEq, Eq)]
pub enum Effect {
    /// Call the contract at `contract_addr` with the encoded message `msg`, passing
    /// `funds` along.
    Execute { contract_addr: String, msg: Vec<u8>, funds: Vec<Coin> },
    /// Transfer `amount` from this contract to `to_address`.
    Send { to_address: String, amount: Vec<Coin> },
}

/// The mathematical value of an [`Effect`].
pub enum EffectView {
    Execute { contract_addr: Seq<char>, msg: Seq<u8>, funds: Seq<CoinView> },
    Send { to_address: Seq<char>, amount: Seq<CoinView> },
}

impl View for Effect {
    type V = EffectView;

    open spec fn view(&self) -> EffectView {
        match *self {
            Effect::Execute { contract_addr, msg, funds } => EffectView::Execute {
                contract_addr: contract_addr@,
                msg: msg@,
                funds: funds.deep_view(),
            },
            Effect::Send { to_address, amount } => EffectView::Send {
                to_address: to_address@,
                amount: amount.deep_view(),
            },
        }
    }
}

impl DeepView for Effect {
    type V = EffectView;

    open spec fn deep_view(&self) -> EffectView {
        self@
    }
}

/// The answer to a command that succeeded.
#[derive(Debug, PartialEq, Eq)]
pub struct Response {
    /// The instructions to carry out, in order.
    pub messages: Vec<Effect>,
}

/// The mathematical value of a [`Response`].
pub struct ResponseView {
    pub messages: Seq<EffectView>,
}

impl ResponseView {
    /// The acknowledgment that asks for nothing.
    pub open spec fn empty() -> ResponseView {
        ResponseView { messages: Seq::empty() }
    }
}

impl View for Response {
    type V = ResponseView;

    open spec fn view(&self) -> ResponseView {
        ResponseView { messages: self.messages.deep_view() }
    }
}

impl Response {
    /// The acknowledgment that asks for nothing.
    pub fn new() -> (response: Response)
        ensures
            response@ == ResponseView::empty(),
    {
        let response = Response { messages: Vec::new() };
        assert(response@.messages =~= Seq::empty());
        response
    }
}

} // verus!
