//! A mint proxy for an NFT contract, verified with Verus.
//!
//! An administrator names the NFT contract that mints; from then on anyone who
//! attaches an acceptable payment may ask for a mint. The contract mints nothing
//! itself: a mint request that passes the checks is answered with two instructions
//! for the hosting runtime, the call into the NFT contract and the transfer of the
//! payment to the administrator.
//!
//! Every command is a function from the stored state and the request to the new
//! state and the answer. [`contract`] holds the commands with their specifications,
//! [`guard`] the checks they rely on, [`state`] the store, and [`laws`] what follows
//! for every request. The host's part is kept out: it reads and writes the store
//! and gives its verdict on addresses. [`encoding`] is the one place where outside
//! code is called and believed.

pub mod coin;
pub mod contract;
pub mod encoding;
pub mod error;
pub mod guard;
pub mod laws;
pub mod msg;
pub mod response;
pub mod state;

pub use crate::error::ContractError;
