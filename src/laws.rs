use vstd::prelude::*;
use crate::launchpad::{
    allocate_dex_effect, allocate_dex_error, creator_after_fee, migrate_effect, migrate_error,
    mint_tokens_effect, mint_tokens_error, one_percent, renounce_effect, renounce_error,
    swap_effect, swap_error, trading_fee_effect, trading_fee_error, AllocateDEX,
    MigrateToRaydium, MintTokens, RenounceOwnership, SwapSolToTokens, TradingFee,
    CREATOR_CAP_DIVISOR, SWAP_RATE,
};
use crate::ledger::lamport_transfer_error;
use crate::state::{ErrorCode, ProjectState};

verus! {

/// After every capped mint that goes through, the creator holds no more than
/// a twentieth of the supply, before the mint and after it.
pub proof fn lemma_mint_keeps_creator_under_cap(ctx: MintTokens, amount: u64)
    requires
        ctx.well_formed(),
        mint_tokens_error(ctx, amount).is_none(),
    ensures
        mint_tokens_effect(ctx, amount).creator_token_account.amount <= ctx.mint.supply / CREATOR_CAP_DIVISOR,
        mint_tokens_effect(ctx, amount).creator_token_account.amount
            <= mint_tokens_effect(ctx, amount).mint.supply / CREATOR_CAP_DIVISOR,
{
    let after = mint_tokens_effect(ctx, amount);
    assert(ctx.mint.supply / 20 <= after.mint.supply / 20) by (nonlinear_arith)
        requires after.mint.supply >= ctx.mint.supply;
}

/// `after` keeps both one-way flags of `before` and its authority.
pub open spec fn latches_kept(before: ProjectState, after: ProjectState) -> bool {
    &&& before.is_community_owned ==> after.is_community_owned
    &&& before.is_renounced ==> after.is_renounced
    &&& after.authority == before.authority
}

/// A trading fee never clears a flag or changes the authority, and it makes a
/// creator-owned project community owned exactly when, once the fee has moved,
/// the creator's balance is zero.
pub proof fn lemma_trading_fee_flips_only_at_zero(ctx: TradingFee, amount: u64)
    requires
        trading_fee_error(ctx, amount).is_none(),
    ensures
        latches_kept(ctx.project_state, trading_fee_effect(ctx, amount).project_state),
        trading_fee_effect(ctx, amount).project_state.is_renounced == ctx.project_state.is_renounced,
        !ctx.project_state.is_community_owned ==> (
            trading_fee_effect(ctx, amount).project_state.is_community_owned
                <==> creator_after_fee(ctx, one_percent(amount)).amount == 0),
{
}

/// A dex allocation leaves the project record as it was.
pub proof fn lemma_allocation_keeps_flags(ctx: AllocateDEX, amount: u64)
    requires
        allocate_dex_error(ctx, amount).is_none(),
    ensures
        allocate_dex_effect(ctx, amount).project_state == ctx.project_state,
{
}

/// Only the stored authority can renounce: any other caller is refused with
/// `Unauthorized`, and a renouncement that goes through was asked for by the
/// authority, sets the flag and changes nothing else of the record.
pub proof fn lemma_renounce_only_by_authority(ctx: RenounceOwnership)
    ensures
        ctx.authority@ != ctx.project_state.authority@
            ==> renounce_error(ctx) == Some(ErrorCode::Unauthorized),
        renounce_error(ctx).is_none() ==> {
            &&& ctx.authority@ == ctx.project_state.authority@
            &&& renounce_effect(ctx).project_state.is_renounced
            &&& renounce_effect(ctx).project_state.is_community_owned == ctx.project_state.is_community_owned
            &&& latches_kept(ctx.project_state, renounce_effect(ctx).project_state)
        },
{
}

/// A migration whose treasury account is not owned by the treasury is refused
/// with `AccountMismatch`; one that goes through moves exactly `amount` tokens
/// from the treasury's account to the pool's and changes nothing else.
pub proof fn lemma_migrate_moves_exactly(ctx: MigrateToRaydium, amount: u64)
    ensures
        ctx.treasury_token_account.owner@ != ctx.treasury@
            ==> migrate_error(ctx, amount) == Some(ErrorCode::AccountMismatch),
        migrate_error(ctx, amount).is_none() ==> {
            let after = migrate_effect(ctx, amount);
            &&& after.treasury_token_account.amount == ctx.treasury_token_account.amount - amount
            &&& after.raydium_pool.amount == ctx.raydium_pool.amount + amount
            &&& after.treasury_token_account.key == ctx.treasury_token_account.key
            &&& after.treasury_token_account.owner == ctx.treasury_token_account.owner
            &&& after.raydium_pool.key == ctx.raydium_pool.key
            &&& after.program_id == ctx.program_id
            &&& after.treasury == ctx.treasury
        },
{
}

/// A swap either takes the payment and mints `SWAP_RATE` tokens per unit, or,
/// where the payment cannot be made, is refused and mints nothing.
pub proof fn lemma_swap_all_or_nothing(ctx: SwapSolToTokens, sol_amount: u64)
    ensures
        lamport_transfer_error(ctx.user, ctx.treasury, sol_amount).is_some()
            ==> swap_error(ctx, sol_amount).is_some(),
        swap_error(ctx, sol_amount).is_none() ==> {
            let after = swap_effect(ctx, sol_amount);
            &&& after.user.lamports == ctx.user.lamports - sol_amount
            &&& after.treasury.lamports == ctx.treasury.lamports + sol_amount
            &&& after.user_token_account.amount == ctx.user_token_account.amount + sol_amount * SWAP_RATE
            &&& after.mint.supply == ctx.mint.supply + sol_amount * SWAP_RATE
        },
{
}

} // verus!
