use vstd::prelude::*;
use crate::address::Address;

verus! {

/// Why an operation was refused. A refused operation changes nothing.
#[derive(Clone, Copy, Debug, PartialEq, Eq, Structural)]
pub enum ErrorCode {
    /// The project record already exists.
    AlreadyInitialized,
    /// A payer or a source account holds less than the operation moves.
    InsufficientFunds,
    /// A checked computation or a balance update would leave the `u64` range.
    ArithmeticOverflow,
    /// A mint request for other than the fixed amount.
    InvalidAmount,
    /// The creator would hold more than the cap allows.
    CapExceeded,
    /// The caller lacks the authority the operation asks for.
    Unauthorized,
    /// A supplied account is not the one the operation must act on.
    AccountMismatch,
}

/// The per-deployment project record.
#[derive(Clone, Copy, Debug)]
pub struct ProjectState {
    pub is_community_owned: bool,
    pub is_renounced: bool,
    pub authority: Address,
}

/// A token account as the ledger reports it: its own address, the mint whose
/// tokens it holds, the identity that may move them, and its balance.
#[derive(Clone, Copy, Debug)]
pub struct TokenAccount {
    pub key: Address,
    pub mint: Address,
    pub owner: Address,
    pub amount: u64,
}

/// A token mint: its address and the number of tokens in circulation.
#[derive(Clone, Copy, Debug)]
pub struct Mint {
    pub key: Address,
    pub supply: u64,
}

/// An account of the chain's native currency, counted in its smallest unit.
#[derive(Clone, Copy, Debug)]
pub struct SystemAccount {
    pub key: Address,
    pub lamports: u64,
}

} // verus!
