//! The ways in which a command can fail.

use vstd::prelude::*;

verus! {

/// Why a command did not execute. A command that fails has changed nothing and
/// emitted nothing.
#[derive(Debug, Clone, Copy, PartialEq, Eq, Structural)]
pub enum ContractError {
    /// The layer below failed: the store holds no state, or the delegated mint
    /// instruction has no encoding.
    Std {},
    /// The caller of an admin-only command is not the admin.
    Unauthorized {},
    /// A mint was requested before the admin named the NFT contract.
    EmptyNftAddress {},
    /// The attached payment holds a coin of another denomination than the accepted one.
    UnmatchDenom {},
    /// The attached payment holds a coin of the accepted denomination with amount zero.
    InsufficientFunds {},
    /// The address given for the NFT contract is not well-formed.
    InvalidAddress {},
}

} // verus!
