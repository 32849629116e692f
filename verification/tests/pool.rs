use ido_pool::errors::{Error, ErrorCode, LedgerError};
use ido_pool::ledger::{Mint, TokenAccount};
use ido_pool::pool::{
    exchange_deposit_token_for_redeemable, exchange_redeemable_for_native, initialize_pool,
    withdraw_pool_deposit_token, ExchangeDepositTokenForRedeemable, ExchangeRedeemableForNative,
    InitializePool, PoolAccount, WithdrawPoolDepositToken,
};

fn fresh_init_accounts(creator_native: u64) -> InitializePool {
    InitializePool {
        authority: 7,
        redeemable_mint_id: 1,
        native_mint_id: 2,
        deposit_token_mint_id: 3,
        pool_native_id: 4,
        pool_deposit_token_id: 5,
        redeemable_mint: Mint { supply: 0 },
        creator_native: TokenAccount {
            amount: creator_native,
        },
        pool_native: TokenAccount { amount: 0 },
    }
}

fn sample_pool() -> PoolAccount {
    let mut accounts = fresh_init_accounts(1_000);
    initialize_pool(&mut accounts, 1_000, 100, 200, 300, 9, 50).unwrap()
}

#[test]
fn create_pool_persists_record_and_funds_vault() {
    let mut accounts = fresh_init_accounts(1_500);
    let pool = initialize_pool(&mut accounts, 1_000, 100, 200, 300, 9, 50).unwrap();
    assert_eq!(pool.pool_authority, 7);
    assert_eq!(pool.total_native_tokens, 1_000);
    assert_eq!(pool.start_ido_ts, 100);
    assert_eq!(pool.end_ido_ts, 200);
    assert_eq!(pool.withdraw_deposit_token_ts, 300);
    assert_eq!(pool.bump, 9);
    assert_eq!(accounts.creator_native.amount, 500);
    assert_eq!(accounts.pool_native.amount, 1_000);
    assert_eq!(accounts.redeemable_mint.supply, 0);
}

#[test]
fn create_pool_rejects_non_sequential_timestamps() {
    // Any ordering but strictly increasing fails, whatever the amount.
    let orderings = [(200, 100, 300), (100, 300, 200), (100, 100, 300), (100, 200, 200)];
    for (start, end, withdraw) in orderings {
        let mut accounts = fresh_init_accounts(1_000);
        let r = initialize_pool(&mut accounts, 1_000, start, end, withdraw, 9, 50);
        assert_eq!(r, Err(Error::Code(ErrorCode::NonSequentialTimestamps)));
        let r = initialize_pool(&mut accounts, 0, start, end, withdraw, 9, 50);
        assert_eq!(r, Err(Error::Code(ErrorCode::NonSequentialTimestamps)));
        assert_eq!(accounts.creator_native.amount, 1_000);
        assert_eq!(accounts.pool_native.amount, 0);
    }
}

#[test]
fn create_pool_rejects_zero_amount_before_any_transfer() {
    let mut accounts = fresh_init_accounts(1_000);
    let r = initialize_pool(&mut accounts, 0, 100, 200, 300, 9, 50);
    assert_eq!(r, Err(Error::Code(ErrorCode::InvalidParameter)));
    assert_eq!(accounts.creator_native.amount, 1_000);
    assert_eq!(accounts.pool_native.amount, 0);
}

#[test]
fn create_pool_rejected_at_or_after_start() {
    let mut accounts = fresh_init_accounts(1_000);
    let r = initialize_pool(&mut accounts, 1_000, 100, 200, 300, 9, 100);
    assert_eq!(r, Err(Error::Code(ErrorCode::IdoFuture)));
    let r = initialize_pool(&mut accounts, 1_000, 100, 200, 300, 9, 170);
    assert_eq!(r, Err(Error::Code(ErrorCode::IdoFuture)));
}

#[test]
fn create_pool_rejects_underfunded_creator() {
    let mut accounts = fresh_init_accounts(999);
    let r = initialize_pool(&mut accounts, 1_000, 100, 200, 300, 9, 50);
    assert_eq!(r, Err(Error::Ledger(LedgerError::InsufficientFunds)));
    assert_eq!(accounts.creator_native.amount, 999);
    assert_eq!(accounts.pool_native.amount, 0);
}

fn fresh_deposit_accounts(holding: u64) -> ExchangeDepositTokenForRedeemable {
    ExchangeDepositTokenForRedeemable {
        authority: 11,
        redeemable_mint: Mint { supply: 0 },
        pool_deposit_token: TokenAccount { amount: 0 },
        depositor_deposit_token: TokenAccount { amount: holding },
        depositor_redeemable: TokenAccount { amount: 0 },
    }
}

#[test]
fn deposit_moves_amount_one_to_one() {
    let pool = sample_pool();
    let mut accounts = fresh_deposit_accounts(800);
    let r = exchange_deposit_token_for_redeemable(&pool, &mut accounts, 300, 150);
    assert_eq!(r, Ok(()));
    assert_eq!(accounts.depositor_deposit_token.amount, 500);
    assert_eq!(accounts.pool_deposit_token.amount, 300);
    assert_eq!(accounts.depositor_redeemable.amount, 300);
    assert_eq!(accounts.redeemable_mint.supply, 300);
}

#[test]
fn deposit_rejected_outside_open_window() {
    let pool = sample_pool();
    for now in [50, 100, 200, 250] {
        let mut accounts = fresh_deposit_accounts(800);
        let r = exchange_deposit_token_for_redeemable(&pool, &mut accounts, 300, now);
        assert_eq!(r, Err(Error::Code(ErrorCode::WrongInvestingTime)));
        assert_eq!(accounts.depositor_deposit_token.amount, 800);
        assert_eq!(accounts.pool_deposit_token.amount, 0);
        assert_eq!(accounts.depositor_redeemable.amount, 0);
        assert_eq!(accounts.redeemable_mint.supply, 0);
    }
}

#[test]
fn deposit_rejects_zero_amount() {
    let pool = sample_pool();
    let mut accounts = fresh_deposit_accounts(800);
    let r = exchange_deposit_token_for_redeemable(&pool, &mut accounts, 0, 150);
    assert_eq!(r, Err(Error::Code(ErrorCode::InvalidParameter)));
    assert_eq!(accounts.depositor_deposit_token.amount, 800);
}

#[test]
fn deposit_rejects_low_balance() {
    let pool = sample_pool();
    let mut accounts = fresh_deposit_accounts(299);
    let r = exchange_deposit_token_for_redeemable(&pool, &mut accounts, 300, 150);
    assert_eq!(r, Err(Error::Code(ErrorCode::LowDepositToken)));
    assert_eq!(accounts.depositor_deposit_token.amount, 299);
    assert_eq!(accounts.redeemable_mint.supply, 0);
}

#[test]
fn deposit_rejects_supply_overflow() {
    let pool = sample_pool();
    let mut accounts = ExchangeDepositTokenForRedeemable {
        authority: 11,
        redeemable_mint: Mint { supply: u64::MAX - 10 },
        pool_deposit_token: TokenAccount { amount: 0 },
        depositor_deposit_token: TokenAccount { amount: 800 },
        depositor_redeemable: TokenAccount { amount: 0 },
    };
    let r = exchange_deposit_token_for_redeemable(&pool, &mut accounts, 300, 150);
    assert_eq!(r, Err(Error::Ledger(LedgerError::Overflow)));
    assert_eq!(accounts.depositor_deposit_token.amount, 800);
    assert_eq!(accounts.redeemable_mint.supply, u64::MAX - 10);
}

fn redeem_accounts(claim: u64, vault: u64, supply: u64) -> ExchangeRedeemableForNative {
    ExchangeRedeemableForNative {
        authority: 11,
        redeemable_mint: Mint { supply },
        pool_native: TokenAccount { amount: vault },
        depositor_native: TokenAccount { amount: 0 },
        depositor_redeemable: TokenAccount { amount: claim },
    }
}

#[test]
fn redeem_pays_floor_share_and_burns_whole_claim() {
    let pool = sample_pool();
    // floor(40 * 1000 / 90) = 444: the truncated share leaves dust in
    // the vault.
    let mut accounts = redeem_accounts(40, 1_000, 90);
    let r = exchange_redeemable_for_native(&pool, &mut accounts, 250);
    assert_eq!(r, Ok(()));
    assert_eq!(accounts.depositor_native.amount, 444);
    assert_eq!(accounts.pool_native.amount, 556);
    assert_eq!(accounts.depositor_redeemable.amount, 0);
    assert_eq!(accounts.redeemable_mint.supply, 50);
}

#[test]
fn redeem_rejected_before_close() {
    let pool = sample_pool();
    for now in [150, 200] {
        let mut accounts = redeem_accounts(40, 1_000, 90);
        let r = exchange_redeemable_for_native(&pool, &mut accounts, now);
        assert_eq!(r, Err(Error::Code(ErrorCode::IdoNotOver)));
        assert_eq!(accounts.depositor_redeemable.amount, 40);
        assert_eq!(accounts.pool_native.amount, 1_000);
    }
}

#[test]
fn redeem_rejects_zero_supply_without_dividing() {
    let pool = sample_pool();
    let mut accounts = redeem_accounts(0, 1_000, 0);
    let r = exchange_redeemable_for_native(&pool, &mut accounts, 250);
    assert_eq!(r, Err(Error::Code(ErrorCode::NothingToRedeem)));
    assert_eq!(accounts.pool_native.amount, 1_000);
}

#[test]
fn redeem_with_zero_claim_is_a_noop_payout() {
    let pool = sample_pool();
    let mut accounts = redeem_accounts(0, 1_000, 90);
    let r = exchange_redeemable_for_native(&pool, &mut accounts, 250);
    assert_eq!(r, Ok(()));
    assert_eq!(accounts.depositor_native.amount, 0);
    assert_eq!(accounts.pool_native.amount, 1_000);
}

#[test]
fn redeem_handles_wide_intermediate_products() {
    let pool = sample_pool();
    // claim * vault does not fit in 64 bits; the widened arithmetic
    // still pays the exact floor share.
    let claim = 1u64 << 40;
    let supply = 1u64 << 41;
    let vault = 1u64 << 33;
    let mut accounts = redeem_accounts(claim, vault, supply);
    let r = exchange_redeemable_for_native(&pool, &mut accounts, 250);
    assert_eq!(r, Ok(()));
    assert_eq!(accounts.depositor_native.amount, 1u64 << 32);
    assert_eq!(accounts.pool_native.amount, (1u64 << 33) - (1u64 << 32));
}

#[test]
fn two_redemptions_in_order_distribute_everything() {
    let pool = sample_pool();
    // Participants hold 30 and 70 claims against a vault of 100.
    let mut first = redeem_accounts(30, 100, 100);
    let r = exchange_redeemable_for_native(&pool, &mut first, 250);
    assert_eq!(r, Ok(()));
    assert_eq!(first.depositor_native.amount, 30);
    assert_eq!(first.pool_native.amount, 70);
    assert_eq!(first.redeemable_mint.supply, 70);

    let mut second = ExchangeRedeemableForNative {
        authority: 12,
        redeemable_mint: first.redeemable_mint,
        pool_native: first.pool_native,
        depositor_native: TokenAccount { amount: 0 },
        depositor_redeemable: TokenAccount { amount: 70 },
    };
    let r = exchange_redeemable_for_native(&pool, &mut second, 260);
    assert_eq!(r, Ok(()));
    assert_eq!(second.depositor_native.amount, 70);
    assert_eq!(second.pool_native.amount, 0);
    assert_eq!(second.redeemable_mint.supply, 0);
}

#[test]
fn withdraw_rejected_before_withdraw_ts() {
    let pool = sample_pool();
    for now in [250, 300] {
        let mut accounts = WithdrawPoolDepositToken {
            payer: 7,
            pool_deposit_token: TokenAccount { amount: 500 },
            creator_deposit_token: TokenAccount { amount: 0 },
        };
        let r = withdraw_pool_deposit_token(&pool, &mut accounts, now);
        assert_eq!(r, Err(Error::Code(ErrorCode::CannotWithdrawYet)));
        assert_eq!(accounts.pool_deposit_token.amount, 500);
        assert_eq!(accounts.creator_deposit_token.amount, 0);
    }
}

#[test]
fn withdraw_takes_whole_vault() {
    let pool = sample_pool();
    let mut accounts = WithdrawPoolDepositToken {
        payer: 7,
        pool_deposit_token: TokenAccount { amount: 500 },
        creator_deposit_token: TokenAccount { amount: 25 },
    };
    let r = withdraw_pool_deposit_token(&pool, &mut accounts, 350);
    assert_eq!(r, Ok(()));
    assert_eq!(accounts.pool_deposit_token.amount, 0);
    assert_eq!(accounts.creator_deposit_token.amount, 525);
}

#[test]
fn withdraw_of_empty_vault_is_legal_noop() {
    let pool = sample_pool();
    let mut accounts = WithdrawPoolDepositToken {
        payer: 7,
        pool_deposit_token: TokenAccount { amount: 0 },
        creator_deposit_token: TokenAccount { amount: 25 },
    };
    let r = withdraw_pool_deposit_token(&pool, &mut accounts, 350);
    assert_eq!(r, Ok(()));
    assert_eq!(accounts.pool_deposit_token.amount, 0);
    assert_eq!(accounts.creator_deposit_token.amount, 25);
}

#[test]
fn full_lifecycle_of_one_pool() {
    // Create with 1000 native committed, window 100..200, withdrawal
    // after 300.
    let mut init = fresh_init_accounts(1_000);
    let pool = initialize_pool(&mut init, 1_000, 100, 200, 300, 9, 50).unwrap();

    // One participant deposits 500 at t=150.
    let mut dep = fresh_deposit_accounts(500);
    let r = exchange_deposit_token_for_redeemable(&pool, &mut dep, 500, 150);
    assert_eq!(r, Ok(()));
    assert_eq!(dep.depositor_redeemable.amount, 500);

    // At t=250 the participant redeems the whole claim balance and, as
    // the only holder, receives the whole vault: floor(500*1000/500).
    let mut red = ExchangeRedeemableForNative {
        authority: 11,
        redeemable_mint: dep.redeemable_mint,
        pool_native: init.pool_native,
        depositor_native: TokenAccount { amount: 0 },
        depositor_redeemable: dep.depositor_redeemable,
    };
    let r = exchange_redeemable_for_native(&pool, &mut red, 250);
    assert_eq!(r, Ok(()));
    assert_eq!(red.depositor_native.amount, 1_000);
    assert_eq!(red.depositor_redeemable.amount, 0);
    assert_eq!(red.redeemable_mint.supply, 0);

    // At t=350 the organizer takes the 500 accumulated deposit tokens.
    let mut wd = WithdrawPoolDepositToken {
        payer: 7,
        pool_deposit_token: dep.pool_deposit_token,
        creator_deposit_token: TokenAccount { amount: 0 },
    };
    let r = withdraw_pool_deposit_token(&pool, &mut wd, 350);
    assert_eq!(r, Ok(()));
    assert_eq!(wd.creator_deposit_token.amount, 500);
    assert_eq!(wd.pool_deposit_token.amount, 0);
}
