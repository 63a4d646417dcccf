use vstd::prelude::*;
use crate::address::Address;
use crate::state::{ErrorCode, Mint, SystemAccount, TokenAccount};

verus! {

/// Why moving `amount` tokens from `from` to `to` on the signature of
/// `authority` would be refused, checked in this order; `None` if it goes through.
pub open spec fn token_transfer_error(from: TokenAccount, to: TokenAccount, authority: Address, amount: u64) -> Option<ErrorCode> {
    if from.key@ == to.key@ || from.mint@ != to.mint@ {
        Some(ErrorCode::AccountMismatch)
    } else if from.owner@ != authority@ {
        Some(ErrorCode::Unauthorized)
    } else if from.amount < amount {
        Some(ErrorCode::InsufficientFunds)
    } else if to.amount + amount > u64::MAX {
        Some(ErrorCode::ArithmeticOverflow)
    } else {
        None
    }
}

/// Why moving `amount` native units from `from` to `to` would be refused.
pub open spec fn lamport_transfer_error(from: SystemAccount, to: SystemAccount, amount: u64) -> Option<ErrorCode> {
    if from.key@ == to.key@ {
        Some(ErrorCode::AccountMismatch)
    } else if from.lamports < amount {
        Some(ErrorCode::InsufficientFunds)
    } else if to.lamports + amount > u64::MAX {
        Some(ErrorCode::ArithmeticOverflow)
    } else {
        None
    }
}

/// Why minting `amount` tokens of `mint` into `to` would be refused.
pub open spec fn mint_to_error(mint: Mint, to: TokenAccount, amount: u64) -> Option<ErrorCode> {
    if to.mint@ != mint.key@ {
        Some(ErrorCode::AccountMismatch)
    } else if to.amount + amount > u64::MAX || mint.supply + amount > u64::MAX {
        Some(ErrorCode::ArithmeticOverflow)
    } else {
        None
    }
}

/// `a` with its balance set to `amount`, every other field kept.
pub open spec fn with_amount(a: TokenAccount, amount: int) -> TokenAccount {
    TokenAccount { amount: amount as u64, ..a }
}

pub open spec fn with_lamports(a: SystemAccount, lamports: int) -> SystemAccount {
    SystemAccount { lamports: lamports as u64, ..a }
}

pub open spec fn with_supply(m: Mint, supply: int) -> Mint {
    Mint { supply: supply as u64, ..m }
}

pub fn check_token_transfer(from: &TokenAccount, to: &TokenAccount, authority: &Address, amount: u64) -> (r: Option<ErrorCode>)
    ensures
        r == token_transfer_error(*from, *to, *authority, amount),
{
    if from.key == to.key || from.mint != to.mint {
        Some(ErrorCode::AccountMismatch)
    } else if from.owner != *authority {
        Some(ErrorCode::Unauthorized)
    } else if from.amount < amount {
        Some(ErrorCode::InsufficientFunds)
    } else if to.amount > u64::MAX - amount {
        Some(ErrorCode::ArithmeticOverflow)
    } else {
        None
    }
}

pub fn check_lamport_transfer(from: &SystemAccount, to: &SystemAccount, amount: u64) -> (r: Option<ErrorCode>)
    ensures
        r == lamport_transfer_error(*from, *to, amount),
{
    if from.key == to.key {
        Some(ErrorCode::AccountMismatch)
    } else if from.lamports < amount {
        Some(ErrorCode::InsufficientFunds)
    } else if to.lamports > u64::MAX - amount {
        Some(ErrorCode::ArithmeticOverflow)
    } else {
        None
    }
}

pub fn check_mint_to(mint: &Mint, to: &TokenAccount, amount: u64) -> (r: Option<ErrorCode>)
    ensures
        r == mint_to_error(*mint, *to, amount),
{
    if to.mint != mint.key {
        Some(ErrorCode::AccountMismatch)
    } else if to.amount > u64::MAX - amount || mint.supply > u64::MAX - amount {
        Some(ErrorCode::ArithmeticOverflow)
    } else {
        None
    }
}

/// Moves `amount` tokens; the caller has checked that the transfer goes through.
pub fn apply_token_transfer(from: &mut TokenAccount, to: &mut TokenAccount, amount: u64)
    requires
        old(from).amount >= amount,
        old(to).amount + amount <= u64::MAX,
    ensures
        *final(from) == with_amount(*old(from), old(from).amount - amount),
        *final(to) == with_amount(*old(to), old(to).amount + amount),
{
    from.amount = from.amount - amount;
    to.amount = to.amount + amount;
}

/// Moves `amount` native units; the caller has checked that the transfer goes through.
pub fn apply_lamport_transfer(from: &mut SystemAccount, to: &mut SystemAccount, amount: u64)
    requires
        old(from).lamports >= amount,
        old(to).lamports + amount <= u64::MAX,
    ensures
        *final(from) == with_lamports(*old(from), old(from).lamports - amount),
        *final(to) == with_lamports(*old(to), old(to).lamports + amount),
{
    from.lamports = from.lamports - amount;
    to.lamports = to.lamports + amount;
}

/// Creates `amount` new tokens in `to`; the caller has checked that minting goes through.
pub fn apply_mint_to(mint: &mut Mint, to: &mut TokenAccount, amount: u64)
    requires
        old(to).amount + amount <= u64::MAX,
        old(mint).supply + amount <= u64::MAX,
    ensures
        *final(mint) == with_supply(*old(mint), old(mint).supply + amount),
        *final(to) == with_amount(*old(to), old(to).amount + amount),
{
    mint.supply = mint.supply + amount;
    to.amount = to.amount + amount;
}

} // verus!
