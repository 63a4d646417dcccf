use wybe_launchpad::address::Address;
use wybe_launchpad::derivation::{derive_address, derive_and_verify, Seed};
use wybe_launchpad::launchpad::{
    allocate_dex, initialize_project, migrate_to_raydium, mint_tokens, renounce_ownership,
    swap_sol_to_tokens, trading_fee, AllocateDEX, InitializeProject, MigrateToRaydium,
    MintTokens, RenounceOwnership, SwapSolToTokens, TradingFee, MINT_AMOUNT, MINT_FEE,
};
use wybe_launchpad::state::{ErrorCode, Mint, ProjectState, SystemAccount, TokenAccount};

fn addr(b: u8) -> Address {
    Address::new([b; 32])
}

fn program() -> Address {
    addr(200)
}

fn derived(seed: Seed) -> Address {
    derive_address(seed, &program()).unwrap()
}

fn token(key: u8, mint: Address, owner: Address, amount: u64) -> TokenAccount {
    TokenAccount { key: addr(key), mint, owner, amount }
}

fn project(authority: Address) -> ProjectState {
    ProjectState { is_community_owned: false, is_renounced: false, authority }
}

fn mint_ctx(user_lamports: u64, creator_amount: u64, supply: u64) -> MintTokens {
    let mint = Mint { key: addr(50), supply };
    MintTokens {
        program_id: program(),
        user: SystemAccount { key: addr(1), lamports: user_lamports },
        user_token_account: token(2, mint.key, addr(1), 0),
        mint,
        treasury: SystemAccount { key: derived(Seed::Treasury), lamports: 5 },
        mint_authority: derived(Seed::MintAuthority),
        creator_token_account: token(3, mint.key, addr(9), creator_amount),
    }
}

fn fee_ctx(user_amount: u64, creator_amount: u64) -> TradingFee {
    let m = addr(50);
    TradingFee {
        user: addr(1),
        user_token_account: token(2, m, addr(1), user_amount),
        treasury_token_account: token(4, m, addr(8), 100),
        creator_token_account: token(3, m, addr(9), creator_amount),
        project_state: project(addr(9)),
    }
}

#[test]
fn derivation_differs_per_seed_and_from_program() {
    let t = derived(Seed::Treasury);
    let m = derived(Seed::MintAuthority);
    let p = derived(Seed::ProjectState);
    assert!(t != program());
    assert!(t != m && t != p && m != p);
    assert_eq!(derive_address(Seed::Treasury, &program()), Some(t));
    assert!(derive_and_verify(Seed::Treasury, &program(), &t).is_ok());
    assert_eq!(derive_and_verify(Seed::Treasury, &program(), &m), Err(ErrorCode::AccountMismatch));
}

#[test]
fn derivation_matches_runtime_address() {
    let pid = solana_program::pubkey::Pubkey::new_from_array([200u8; 32]);
    let (expected, bump) = solana_program::pubkey::Pubkey::find_program_address(&[b"treasury"], &pid);
    assert_eq!(derived(Seed::Treasury).bytes, expected.to_bytes());
    assert_eq!(derive_and_verify(Seed::Treasury, &program(), &derived(Seed::Treasury)), Ok(bump));
}

#[test]
fn initialize_creates_record_once() {
    let mut ctx = InitializeProject {
        program_id: program(),
        project_state_key: derived(Seed::ProjectState),
        project_state: None,
        authority: addr(9),
    };
    assert_eq!(initialize_project(&mut ctx), Ok(()));
    let s = ctx.project_state.unwrap();
    assert!(!s.is_community_owned && !s.is_renounced);
    assert_eq!(s.authority, addr(9));
    ctx.authority = addr(10);
    assert_eq!(initialize_project(&mut ctx), Err(ErrorCode::AlreadyInitialized));
    assert_eq!(ctx.project_state.unwrap().authority, addr(9));
}

#[test]
fn initialize_rejects_wrong_record_address() {
    let mut ctx = InitializeProject {
        program_id: program(),
        project_state_key: addr(3),
        project_state: None,
        authority: addr(9),
    };
    assert_eq!(initialize_project(&mut ctx), Err(ErrorCode::AccountMismatch));
    assert!(ctx.project_state.is_none());
}

#[test]
fn capped_mint_succeeds_and_charges_flat_fee() {
    let mut ctx = mint_ctx(10_000_000, 0, 20_000_000_000);
    assert_eq!(mint_tokens(&mut ctx, 1_000_000_000), Ok(()));
    assert_eq!(ctx.user.lamports, 0);
    assert_eq!(ctx.treasury.lamports, 5 + 10_000_000);
    assert_eq!(ctx.user_token_account.amount, 1_000_000_000);
    assert_eq!(ctx.mint.supply, 21_000_000_000);
    assert!(ctx.creator_token_account.amount <= ctx.mint.supply / 20);
}

#[test]
fn capped_mint_short_of_fee_changes_nothing() {
    let mut ctx = mint_ctx(9_999_999, 0, 20_000_000_000);
    assert_eq!(mint_tokens(&mut ctx, 1_000_000_000), Err(ErrorCode::InsufficientFunds));
    assert_eq!(ctx.user.lamports, 9_999_999);
    assert_eq!(ctx.treasury.lamports, 5);
    assert_eq!(ctx.user_token_account.amount, 0);
    assert_eq!(ctx.mint.supply, 20_000_000_000);
}

#[test]
fn capped_mint_rejects_other_amounts() {
    let mut ctx = mint_ctx(MINT_FEE, 0, 20_000_000_000);
    assert_eq!(mint_tokens(&mut ctx, MINT_AMOUNT - 1), Err(ErrorCode::InvalidAmount));
    assert_eq!(ctx.user.lamports, MINT_FEE);
}

#[test]
fn capped_mint_enforces_creator_cap() {
    let mut ctx = mint_ctx(MINT_FEE, 1, 20_000_000_000);
    assert_eq!(mint_tokens(&mut ctx, MINT_AMOUNT), Err(ErrorCode::CapExceeded));
    let mut ctx = mint_ctx(MINT_FEE, u64::MAX - 5, u64::MAX);
    assert_eq!(mint_tokens(&mut ctx, MINT_AMOUNT), Err(ErrorCode::ArithmeticOverflow));
}

#[test]
fn capped_mint_to_creator_keeps_cap() {
    let mut ctx = mint_ctx(MINT_FEE, 0, 20_000_000_000);
    ctx.creator_token_account = ctx.user_token_account;
    assert_eq!(mint_tokens(&mut ctx, MINT_AMOUNT), Ok(()));
    assert_eq!(ctx.creator_token_account.amount, MINT_AMOUNT);
    assert!(ctx.creator_token_account.amount <= ctx.mint.supply / 20);
}

#[test]
fn capped_mint_rejects_foreign_treasury() {
    let mut ctx = mint_ctx(MINT_FEE, 0, 20_000_000_000);
    ctx.treasury.key = addr(77);
    assert_eq!(mint_tokens(&mut ctx, MINT_AMOUNT), Err(ErrorCode::AccountMismatch));
    let mut ctx = mint_ctx(MINT_FEE, 0, 20_000_000_000);
    ctx.mint_authority = derived(Seed::Treasury);
    assert_eq!(mint_tokens(&mut ctx, MINT_AMOUNT), Err(ErrorCode::AccountMismatch));
}

#[test]
fn trading_fee_skims_one_percent() {
    let mut ctx = fee_ctx(1000, 5);
    assert_eq!(trading_fee(&mut ctx, 250), Ok(()));
    assert_eq!(ctx.user_token_account.amount, 998);
    assert_eq!(ctx.treasury_token_account.amount, 102);
    assert!(!ctx.project_state.is_community_owned);
}

#[test]
fn trading_fee_below_hundred_is_free() {
    let mut ctx = fee_ctx(1000, 5);
    assert_eq!(trading_fee(&mut ctx, 50), Ok(()));
    assert_eq!(ctx.user_token_account.amount, 1000);
    assert_eq!(ctx.treasury_token_account.amount, 100);
}

#[test]
fn trading_fee_flips_ownership_when_creator_empty() {
    let mut ctx = fee_ctx(1000, 0);
    assert_eq!(trading_fee(&mut ctx, 250), Ok(()));
    assert!(ctx.project_state.is_community_owned);
    ctx.creator_token_account.amount = 40;
    assert_eq!(trading_fee(&mut ctx, 250), Ok(()));
    assert!(ctx.project_state.is_community_owned);
}

#[test]
fn trading_fee_by_creator_selling_out_flips() {
    let mut ctx = fee_ctx(2, 2);
    ctx.creator_token_account = ctx.user_token_account;
    assert_eq!(trading_fee(&mut ctx, 200), Ok(()));
    assert_eq!(ctx.creator_token_account.amount, 0);
    assert!(ctx.project_state.is_community_owned);
}

#[test]
fn trading_fee_errors() {
    let mut ctx = fee_ctx(1, 0);
    assert_eq!(trading_fee(&mut ctx, 250), Err(ErrorCode::InsufficientFunds));
    assert!(!ctx.project_state.is_community_owned);
    let mut ctx = fee_ctx(1000, 0);
    ctx.user = addr(33);
    assert_eq!(trading_fee(&mut ctx, 250), Err(ErrorCode::Unauthorized));
    let mut ctx = fee_ctx(1000, 0);
    ctx.treasury_token_account.mint = addr(51);
    assert_eq!(trading_fee(&mut ctx, 250), Err(ErrorCode::AccountMismatch));
    let mut ctx = fee_ctx(1000, 0);
    ctx.treasury_token_account.amount = u64::MAX;
    assert_eq!(trading_fee(&mut ctx, 250), Err(ErrorCode::ArithmeticOverflow));
    assert_eq!(ctx.user_token_account.amount, 1000);
}

fn dex_ctx() -> AllocateDEX {
    let m = addr(50);
    AllocateDEX {
        creator: addr(9),
        creator_token_account: token(3, m, addr(9), 500),
        treasury_token_account: token(4, m, addr(8), 0),
        project_state: project(addr(9)),
    }
}

#[test]
fn allocate_dex_moves_one_percent() {
    let mut ctx = dex_ctx();
    assert_eq!(allocate_dex(&mut ctx, 1099), Ok(()));
    assert_eq!(ctx.creator_token_account.amount, 490);
    assert_eq!(ctx.treasury_token_account.amount, 10);
}

#[test]
fn allocate_dex_needs_unrenounced_authority() {
    let mut ctx = dex_ctx();
    ctx.creator = addr(10);
    ctx.creator_token_account.owner = addr(10);
    assert_eq!(allocate_dex(&mut ctx, 1000), Err(ErrorCode::Unauthorized));
    let mut ctx = dex_ctx();
    ctx.project_state.is_renounced = true;
    assert_eq!(allocate_dex(&mut ctx, 1000), Err(ErrorCode::Unauthorized));
    assert_eq!(ctx.creator_token_account.amount, 500);
}

fn migrate_ctx() -> MigrateToRaydium {
    let m = addr(50);
    let treasury = derived(Seed::Treasury);
    MigrateToRaydium {
        program_id: program(),
        treasury,
        treasury_token_account: token(4, m, treasury, 700),
        raydium_pool: token(6, m, addr(60), 30),
    }
}

#[test]
fn migrate_moves_exact_amount() {
    let mut ctx = migrate_ctx();
    assert_eq!(migrate_to_raydium(&mut ctx, 250), Ok(()));
    assert_eq!(ctx.treasury_token_account.amount, 450);
    assert_eq!(ctx.raydium_pool.amount, 280);
    assert_eq!(ctx.treasury_token_account.owner, derived(Seed::Treasury));
}

#[test]
fn migrate_rejects_foreign_treasury_account() {
    let mut ctx = migrate_ctx();
    ctx.treasury_token_account.owner = addr(61);
    assert_eq!(migrate_to_raydium(&mut ctx, 250), Err(ErrorCode::AccountMismatch));
    assert_eq!(ctx.treasury_token_account.amount, 700);
    assert_eq!(ctx.raydium_pool.amount, 30);
    let mut ctx = migrate_ctx();
    assert_eq!(migrate_to_raydium(&mut ctx, 701), Err(ErrorCode::InsufficientFunds));
    assert_eq!(ctx.raydium_pool.amount, 30);
}

#[test]
fn renounce_only_by_authority() {
    let mut ctx = RenounceOwnership { authority: addr(10), project_state: project(addr(9)) };
    assert_eq!(renounce_ownership(&mut ctx), Err(ErrorCode::Unauthorized));
    assert!(!ctx.project_state.is_renounced);
    ctx.authority = addr(9);
    assert_eq!(renounce_ownership(&mut ctx), Ok(()));
    assert!(ctx.project_state.is_renounced);
    assert_eq!(renounce_ownership(&mut ctx), Ok(()));
    assert!(ctx.project_state.is_renounced);
    assert_eq!(ctx.project_state.authority, addr(9));
}

fn swap_ctx(lamports: u64) -> SwapSolToTokens {
    let mint = Mint { key: addr(50), supply: 0 };
    SwapSolToTokens {
        program_id: program(),
        user: SystemAccount { key: addr(1), lamports },
        user_token_account: token(2, mint.key, addr(1), 0),
        mint,
        treasury: SystemAccount { key: derived(Seed::Treasury), lamports: 0 },
        mint_authority: derived(Seed::MintAuthority),
    }
}

#[test]
fn swap_mints_hundred_per_unit() {
    let mut ctx = swap_ctx(15);
    assert_eq!(swap_sol_to_tokens(&mut ctx, 10), Ok(()));
    assert_eq!(ctx.user_token_account.amount, 1000);
    assert_eq!(ctx.mint.supply, 1000);
    assert_eq!(ctx.user.lamports, 5);
    assert_eq!(ctx.treasury.lamports, 10);
}

#[test]
fn swap_without_funds_mints_nothing() {
    let mut ctx = swap_ctx(9);
    assert_eq!(swap_sol_to_tokens(&mut ctx, 10), Err(ErrorCode::InsufficientFunds));
    assert_eq!(ctx.user_token_account.amount, 0);
    assert_eq!(ctx.mint.supply, 0);
    assert_eq!(ctx.user.lamports, 9);
    let mut ctx = swap_ctx(u64::MAX);
    assert_eq!(swap_sol_to_tokens(&mut ctx, u64::MAX / 50), Err(ErrorCode::ArithmeticOverflow));
    assert_eq!(ctx.user.lamports, u64::MAX);
}
