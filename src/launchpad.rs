use vstd::prelude::*;
use crate::address::Address;
use crate::derivation::{derive_and_verify, is_derived, Seed};
use crate::ledger::{
    apply_lamport_transfer, apply_mint_to, apply_token_transfer, check_lamport_transfer,
    check_mint_to, check_token_transfer, lamport_transfer_error, mint_to_error, token_transfer_error, with_amount, with_lamports, with_supply,
};
use crate::state::{ErrorCode, Mint, ProjectState, SystemAccount, TokenAccount};

verus! {

/// The only amount that one mint request may create.
pub const MINT_AMOUNT: u64 = 1_000_000_000;

/// The flat fee, in native units, that the caller pays into the treasury per mint.
pub const MINT_FEE: u64 = 10_000_000;

/// The creator may hold at most one twentieth (5%) of the supply.
pub const CREATOR_CAP_DIVISOR: u64 = 20;

/// Tokens minted per native unit on the swap path.
pub const SWAP_RATE: u64 = 100;

/// Trading fees and dex allocations are one hundredth (1%) of the amount, rounded down.
pub const FEE_DIVISOR: u64 = 100;

/// The result an operation returns when its checks end in `e`.
pub open spec fn outcome(e: Option<ErrorCode>) -> Result<(), ErrorCode> {
    match e {
        Some(err) => Err(err),
        None => Ok(()),
    }
}

/// The accounts a capped mint reads and changes.
#[derive(Clone, Copy, Debug)]
pub struct MintTokens {
    /// The deployment's program identity, from which its own accounts are derived.
    pub program_id: Address,
    /// The caller, who pays the fee.
    pub user: SystemAccount,
    /// Receives the minted tokens.
    pub user_token_account: TokenAccount,
    pub mint: Mint,
    /// Receives the fee; must be the address derived from "treasury".
    pub treasury: SystemAccount,
    /// Must be the address derived from "mint_authority".
    pub mint_authority: Address,
    /// The creator's holding, which the cap bounds.
    pub creator_token_account: TokenAccount,
}

impl MintTokens {
    /// Two references to one token account hold the same record.
    pub open spec fn well_formed(self) -> bool {
        self.creator_token_account.key@ == self.user_token_account.key@
            ==> self.creator_token_account == self.user_token_account
    }
}

/// Why a capped mint of `amount` is refused, checked in this order.
pub open spec fn mint_tokens_error(ctx: MintTokens, amount: u64) -> Option<ErrorCode> {
    if !is_derived(Seed::Treasury, ctx.program_id, ctx.treasury.key)
        || !is_derived(Seed::MintAuthority, ctx.program_id, ctx.mint_authority)
        || ctx.user_token_account.mint@ != ctx.mint.key@
        || ctx.creator_token_account.mint@ != ctx.mint.key@ {
        Some(ErrorCode::AccountMismatch)
    } else if amount != MINT_AMOUNT {
        Some(ErrorCode::InvalidAmount)
    } else if ctx.user.lamports < MINT_FEE {
        Some(ErrorCode::InsufficientFunds)
    } else if ctx.creator_token_account.amount + amount > u64::MAX {
        Some(ErrorCode::ArithmeticOverflow)
    } else if ctx.creator_token_account.amount + amount > ctx.mint.supply / CREATOR_CAP_DIVISOR {
        Some(ErrorCode::CapExceeded)
    } else if lamport_transfer_error(ctx.user, ctx.treasury, MINT_FEE).is_some() {
        lamport_transfer_error(ctx.user, ctx.treasury, MINT_FEE)
    } else {
        mint_to_error(ctx.mint, ctx.user_token_account, amount)
    }
}

/// The accounts after a capped mint of `amount` went through: the fee moved
/// from the caller to the treasury and `amount` new tokens in the caller's account.
pub open spec fn mint_tokens_effect(ctx: MintTokens, amount: u64) -> MintTokens {
    let minted = with_amount(ctx.user_token_account, ctx.user_token_account.amount + amount);
    MintTokens {
        user: with_lamports(ctx.user, ctx.user.lamports - MINT_FEE),
        treasury: with_lamports(ctx.treasury, ctx.treasury.lamports + MINT_FEE),
        mint: with_supply(ctx.mint, ctx.mint.supply + amount),
        user_token_account: minted,
        creator_token_account: if ctx.creator_token_account.key@ == ctx.user_token_account.key@ {
            minted
        } else {
            ctx.creator_token_account
        },
        ..ctx
    }
}

/// Mints the fixed amount to the caller for the flat fee, as long as the
/// creator then holds no more than the cap. Every check runs before the fee
/// moves, so a refused request changes nothing.
pub fn mint_tokens(ctx: &mut MintTokens, amount: u64) -> (r: Result<(), ErrorCode>)
    ensures
        r == outcome(mint_tokens_error(*old(ctx), amount)),
        r.is_ok() ==> *final(ctx) == mint_tokens_effect(*old(ctx), amount),
        r.is_err() ==> *final(ctx) == *old(ctx),
{
    if derive_and_verify(Seed::Treasury, &ctx.program_id, &ctx.treasury.key).is_err()
        || derive_and_verify(Seed::MintAuthority, &ctx.program_id, &ctx.mint_authority).is_err()
        || ctx.user_token_account.mint != ctx.mint.key
        || ctx.creator_token_account.mint != ctx.mint.key {
        return Err(ErrorCode::AccountMismatch);
    }
    if amount != MINT_AMOUNT {
        return Err(ErrorCode::InvalidAmount);
    }
    if ctx.user.lamports < MINT_FEE {
        return Err(ErrorCode::InsufficientFunds);
    }
    let max_allowed = ctx.mint.supply / CREATOR_CAP_DIVISOR;
    let creator_after = match ctx.creator_token_account.amount.checked_add(amount) {
        Some(total) => total,
        None => return Err(ErrorCode::ArithmeticOverflow),
    };
    if creator_after > max_allowed {
        return Err(ErrorCode::CapExceeded);
    }
    if let Some(e) = check_lamport_transfer(&ctx.user, &ctx.treasury, MINT_FEE) {
        return Err(e);
    }
    if let Some(e) = check_mint_to(&ctx.mint, &ctx.user_token_account, amount) {
        return Err(e);
    }
    apply_lamport_transfer(&mut ctx.user, &mut ctx.treasury, MINT_FEE);
    apply_mint_to(&mut ctx.mint, &mut ctx.user_token_account, amount);
    if ctx.creator_token_account.key == ctx.user_token_account.key {
        ctx.creator_token_account = ctx.user_token_account;
    }
    Ok(())
}

/// The accounts the currency-for-tokens swap reads and changes.
#[derive(Clone, Copy, Debug)]
pub struct SwapSolToTokens {
    pub program_id: Address,
    /// The caller, who pays in native currency.
    pub user: SystemAccount,
    /// Receives the tokens.
    pub user_token_account: TokenAccount,
    pub mint: Mint,
    /// Receives the payment; must be the address derived from "treasury".
    pub treasury: SystemAccount,
    /// Must be the address derived from "mint_authority".
    pub mint_authority: Address,
}

/// Why a swap of `sol_amount` native units is refused, checked in this order.
pub open spec fn swap_error(ctx: SwapSolToTokens, sol_amount: u64) -> Option<ErrorCode> {
    if !is_derived(Seed::Treasury, ctx.program_id, ctx.treasury.key)
        || !is_derived(Seed::MintAuthority, ctx.program_id, ctx.mint_authority)
        || ctx.user_token_account.mint@ != ctx.mint.key@ {
        Some(ErrorCode::AccountMismatch)
    } else if sol_amount * SWAP_RATE > u64::MAX {
        Some(ErrorCode::ArithmeticOverflow)
    } else if lamport_transfer_error(ctx.user, ctx.treasury, sol_amount).is_some() {
        lamport_transfer_error(ctx.user, ctx.treasury, sol_amount)
    } else {
        mint_to_error(ctx.mint, ctx.user_token_account, (sol_amount * SWAP_RATE) as u64)
    }
}

/// The accounts after a swap went through: `sol_amount` moved from the caller
/// to the treasury and `sol_amount * SWAP_RATE` new tokens in the caller's account.
pub open spec fn swap_effect(ctx: SwapSolToTokens, sol_amount: u64) -> SwapSolToTokens {
    let tokens = sol_amount * SWAP_RATE;
    SwapSolToTokens {
        user: with_lamports(ctx.user, ctx.user.lamports - sol_amount),
        treasury: with_lamports(ctx.treasury, ctx.treasury.lamports + sol_amount),
        mint: with_supply(ctx.mint, ctx.mint.supply + tokens),
        user_token_account: with_amount(ctx.user_token_account, ctx.user_token_account.amount + tokens),
        ..ctx
    }
}

/// Takes `sol_amount` native units from the caller into the treasury and mints
/// `SWAP_RATE` tokens for each of them to the caller: both or neither.
pub fn swap_sol_to_tokens(ctx: &mut SwapSolToTokens, sol_amount: u64) -> (r: Result<(), ErrorCode>)
    ensures
        r == outcome(swap_error(*old(ctx), sol_amount)),
        r.is_ok() ==> *final(ctx) == swap_effect(*old(ctx), sol_amount),
        r.is_err() ==> *final(ctx) == *old(ctx),
{
    if derive_and_verify(Seed::Treasury, &ctx.program_id, &ctx.treasury.key).is_err()
        || derive_and_verify(Seed::MintAuthority, &ctx.program_id, &ctx.mint_authority).is_err()
        || ctx.user_token_account.mint != ctx.mint.key {
        return Err(ErrorCode::AccountMismatch);
    }
    let tokens = match sol_amount.checked_mul(SWAP_RATE) {
        Some(t) => t,
        None => return Err(ErrorCode::ArithmeticOverflow),
    };
    if let Some(e) = check_lamport_transfer(&ctx.user, &ctx.treasury, sol_amount) {
        return Err(e);
    }
    if let Some(e) = check_mint_to(&ctx.mint, &ctx.user_token_account, tokens) {
        return Err(e);
    }
    apply_lamport_transfer(&mut ctx.user, &mut ctx.treasury, sol_amount);
    apply_mint_to(&mut ctx.mint, &mut ctx.user_token_account, tokens);
    Ok(())
}

/// The accounts a trading-fee skim reads and changes.
#[derive(Clone, Copy, Debug)]
pub struct TradingFee {
    /// The trader, who signs for the fee.
    pub user: Address,
    pub user_token_account: TokenAccount,
    pub treasury_token_account: TokenAccount,
    /// The creator's holding, whose balance decides the ownership flip.
    pub creator_token_account: TokenAccount,
    pub project_state: ProjectState,
}

/// The fee or allocation skimmed from `amount`: one percent, rounded down.
pub open spec fn one_percent(amount: u64) -> u64 {
    amount / FEE_DIVISOR
}

/// Why a trading fee on `amount` is refused.
pub open spec fn trading_fee_error(ctx: TradingFee, amount: u64) -> Option<ErrorCode> {
    token_transfer_error(ctx.user_token_account, ctx.treasury_token_account, ctx.user, one_percent(amount))
}

/// The creator's account once a fee of `fee` has moved: where it is the user's
/// or the treasury's account, their new record, else the record as it was.
pub open spec fn creator_after_fee(ctx: TradingFee, fee: u64) -> TokenAccount {
    if ctx.creator_token_account.key@ == ctx.user_token_account.key@ {
        with_amount(ctx.user_token_account, ctx.user_token_account.amount - fee)
    } else if ctx.creator_token_account.key@ == ctx.treasury_token_account.key@ {
        with_amount(ctx.treasury_token_account, ctx.treasury_token_account.amount + fee)
    } else {
        ctx.creator_token_account
    }
}

/// The accounts after a trading fee on `amount` went through: the fee moved
/// from the user to the treasury, and the project is community owned if it
/// was, or if the creator now holds nothing.
pub open spec fn trading_fee_effect(ctx: TradingFee, amount: u64) -> TradingFee {
    let fee = one_percent(amount);
    let creator = creator_after_fee(ctx, fee);
    TradingFee {
        user_token_account: with_amount(ctx.user_token_account, ctx.user_token_account.amount - fee),
        treasury_token_account: with_amount(ctx.treasury_token_account, ctx.treasury_token_account.amount + fee),
        creator_token_account: creator,
        project_state: ProjectState {
            is_community_owned: ctx.project_state.is_community_owned || creator.amount == 0,
            ..ctx.project_state
        },
        ..ctx
    }
}

/// Skims one percent of `amount` from the trader to the treasury, then flips
/// the project to community ownership if the creator's balance is zero.
pub fn trading_fee(ctx: &mut TradingFee, amount: u64) -> (r: Result<(), ErrorCode>)
    ensures
        r == outcome(trading_fee_error(*old(ctx), amount)),
        r.is_ok() ==> *final(ctx) == trading_fee_effect(*old(ctx), amount),
        r.is_err() ==> *final(ctx) == *old(ctx),
{
    let fee = amount / FEE_DIVISOR;
    if let Some(e) = check_token_transfer(&ctx.user_token_account, &ctx.treasury_token_account, &ctx.user, fee) {
        return Err(e);
    }
    apply_token_transfer(&mut ctx.user_token_account, &mut ctx.treasury_token_account, fee);
    if ctx.creator_token_account.key == ctx.user_token_account.key {
        ctx.creator_token_account = ctx.user_token_account;
    } else if ctx.creator_token_account.key == ctx.treasury_token_account.key {
        ctx.creator_token_account = ctx.treasury_token_account;
    }
    if ctx.creator_token_account.amount == 0 {
        ctx.project_state.is_community_owned = true;
    }
    Ok(())
}

/// The accounts a dex allocation reads and changes.
#[derive(Clone, Copy, Debug)]
pub struct AllocateDEX {
    /// The caller, who must be the project's authority.
    pub creator: Address,
    pub creator_token_account: TokenAccount,
    pub treasury_token_account: TokenAccount,
    pub project_state: ProjectState,
}

/// `caller` may use the project's authority: it is the stored authority and
/// the project has not renounced it.
pub open spec fn holds_authority(state: ProjectState, caller: Address) -> bool {
    caller@ == state.authority@ && !state.is_renounced
}

/// Why an allocation from `amount` is refused.
pub open spec fn allocate_dex_error(ctx: AllocateDEX, amount: u64) -> Option<ErrorCode> {
    if !holds_authority(ctx.project_state, ctx.creator) {
        Some(ErrorCode::Unauthorized)
    } else {
        token_transfer_error(ctx.creator_token_account, ctx.treasury_token_account, ctx.creator, one_percent(amount))
    }
}

/// The accounts after an allocation went through: one percent of `amount`
/// moved from the creator to the treasury.
pub open spec fn allocate_dex_effect(ctx: AllocateDEX, amount: u64) -> AllocateDEX {
    let allocation = one_percent(amount);
    AllocateDEX {
        creator_token_account: with_amount(ctx.creator_token_account, ctx.creator_token_account.amount - allocation),
        treasury_token_account: with_amount(ctx.treasury_token_account, ctx.treasury_token_account.amount + allocation),
        ..ctx
    }
}

/// Moves one percent of `amount` from the creator's account to the treasury,
/// on the signature of the project's authority while it has not renounced.
pub fn allocate_dex(ctx: &mut AllocateDEX, amount: u64) -> (r: Result<(), ErrorCode>)
    ensures
        r == outcome(allocate_dex_error(*old(ctx), amount)),
        r.is_ok() ==> *final(ctx) == allocate_dex_effect(*old(ctx), amount),
        r.is_err() ==> *final(ctx) == *old(ctx),
{
    if ctx.creator != ctx.project_state.authority || ctx.project_state.is_renounced {
        return Err(ErrorCode::Unauthorized);
    }
    let allocation = amount / FEE_DIVISOR;
    if let Some(e) = check_token_transfer(&ctx.creator_token_account, &ctx.treasury_token_account, &ctx.creator, allocation) {
        return Err(e);
    }
    apply_token_transfer(&mut ctx.creator_token_account, &mut ctx.treasury_token_account, allocation);
    Ok(())
}

/// The accounts a migration to the external pool reads and changes.
#[derive(Clone, Copy, Debug)]
pub struct MigrateToRaydium {
    pub program_id: Address,
    /// Must be the address derived from "treasury".
    pub treasury: Address,
    /// The treasury's token holding; its owner must be the treasury.
    pub treasury_token_account: TokenAccount,
    /// The pool's account that receives the tokens.
    pub raydium_pool: TokenAccount,
}

/// Why a migration of `amount` tokens is refused.
pub open spec fn migrate_error(ctx: MigrateToRaydium, amount: u64) -> Option<ErrorCode> {
    if !is_derived(Seed::Treasury, ctx.program_id, ctx.treasury)
        || ctx.treasury_token_account.owner@ != ctx.treasury@ {
        Some(ErrorCode::AccountMismatch)
    } else {
        token_transfer_error(ctx.treasury_token_account, ctx.raydium_pool, ctx.treasury, amount)
    }
}

/// The accounts after a migration went through: exactly `amount` tokens moved
/// from the treasury's account to the pool's.
pub open spec fn migrate_effect(ctx: MigrateToRaydium, amount: u64) -> MigrateToRaydium {
    MigrateToRaydium {
        treasury_token_account: with_amount(ctx.treasury_token_account, ctx.treasury_token_account.amount - amount),
        raydium_pool: with_amount(ctx.raydium_pool, ctx.raydium_pool.amount + amount),
        ..ctx
    }
}

/// Moves `amount` tokens from the treasury's account to the pool, signed by
/// the treasury's derived identity.
pub fn migrate_to_raydium(ctx: &mut MigrateToRaydium, amount: u64) -> (r: Result<(), ErrorCode>)
    ensures
        r == outcome(migrate_error(*old(ctx), amount)),
        r.is_ok() ==> *final(ctx) == migrate_effect(*old(ctx), amount),
        r.is_err() ==> *final(ctx) == *old(ctx),
{
    if derive_and_verify(Seed::Treasury, &ctx.program_id, &ctx.treasury).is_err()
        || ctx.treasury_token_account.owner != ctx.treasury {
        return Err(ErrorCode::AccountMismatch);
    }
    if let Some(e) = check_token_transfer(&ctx.treasury_token_account, &ctx.raydium_pool, &ctx.treasury, amount) {
        return Err(e);
    }
    apply_token_transfer(&mut ctx.treasury_token_account, &mut ctx.raydium_pool, amount);
    Ok(())
}

/// The accounts a renouncement reads and changes.
#[derive(Clone, Copy, Debug)]
pub struct RenounceOwnership {
    /// The caller, who must be the stored authority.
    pub authority: Address,
    pub project_state: ProjectState,
}

/// Why a renouncement is refused: only the stored authority may renounce.
pub open spec fn renounce_error(ctx: RenounceOwnership) -> Option<ErrorCode> {
    if ctx.authority@ != ctx.project_state.authority@ {
        Some(ErrorCode::Unauthorized)
    } else {
        None
    }
}

/// The accounts after a renouncement went through: the project is renounced.
pub open spec fn renounce_effect(ctx: RenounceOwnership) -> RenounceOwnership {
    RenounceOwnership {
        project_state: ProjectState { is_renounced: true, ..ctx.project_state },
        ..ctx
    }
}

/// Marks the project as renounced, on the stored authority's request only.
/// Renouncing again is a success that changes nothing.
pub fn renounce_ownership(ctx: &mut RenounceOwnership) -> (r: Result<(), ErrorCode>)
    ensures
        r == outcome(renounce_error(*old(ctx))),
        r.is_ok() ==> *final(ctx) == renounce_effect(*old(ctx)),
        r.is_err() ==> *final(ctx) == *old(ctx),
{
    if ctx.authority != ctx.project_state.authority {
        return Err(ErrorCode::Unauthorized);
    }
    ctx.project_state.is_renounced = true;
    Ok(())
}

/// The accounts the creation of the project record reads and changes.
#[derive(Clone, Copy, Debug)]
pub struct InitializeProject {
    pub program_id: Address,
    /// Where the record lives; must be the address derived from "project_state".
    pub project_state_key: Address,
    /// The record, if one exists already.
    pub project_state: Option<ProjectState>,
    /// The caller, who becomes the project's authority.
    pub authority: Address,
}

/// Why creating the project record is refused.
pub open spec fn initialize_error(ctx: InitializeProject) -> Option<ErrorCode> {
    if !is_derived(Seed::ProjectState, ctx.program_id, ctx.project_state_key) {
        Some(ErrorCode::AccountMismatch)
    } else if ctx.project_state.is_some() {
        Some(ErrorCode::AlreadyInitialized)
    } else {
        None
    }
}

/// The record a project starts with: creator owned, not renounced, and
/// administered by `authority`.
pub open spec fn initial_state(authority: Address) -> ProjectState {
    ProjectState { is_community_owned: false, is_renounced: false, authority }
}

/// Creates the project record, once, with the caller as its authority.
pub fn initialize_project(ctx: &mut InitializeProject) -> (r: Result<(), ErrorCode>)
    ensures
        r == outcome(initialize_error(*old(ctx))),
        r.is_ok() ==> *final(ctx) == (InitializeProject {
            project_state: Some(initial_state(old(ctx).authority)),
            ..*old(ctx)
        }),
        r.is_err() ==> *final(ctx) == *old(ctx),
{
    if derive_and_verify(Seed::ProjectState, &ctx.program_id, &ctx.project_state_key).is_err() {
        return Err(ErrorCode::AccountMismatch);
    }
    if ctx.project_state.is_some() {
        return Err(ErrorCode::AlreadyInitialized);
    }
    ctx.project_state = Some(ProjectState {
        is_community_owned: false,
        is_renounced: false,
        authority: ctx.authority,
    });
    Ok(())
}

} // verus!
