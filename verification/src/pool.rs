use vstd::prelude::*;

use vstd::arithmetic::div_mod::{lemma_div_is_ordered, lemma_div_multiples_vanish, lemma_div_pos_is_pos};
use vstd::arithmetic::mul::{lemma_mul_inequality, lemma_mul_nonnegative, lemma_mul_upper_bound};

use crate::errors::{Error, ErrorCode, LedgerError};
use crate::ledger;
use crate::ledger::{Mint, TokenAccount};
use crate::phase;
use crate::phase::{in_closed_phase, in_open_phase, in_setup_phase, in_withdraw_phase};

verus! {

/// The persistent record of one exchange pool, written once at creation
/// and read-only afterwards.
#[derive(Clone, Copy, Debug, PartialEq, Eq, Structural)]
pub struct PoolAccount {
    /// Identity that created the pool and later receives the deposits.
    pub pool_authority: u64,
    /// Token kind of the redeemable claims minted against deposits.
    pub redeemable_mint: u64,
    /// Token kind being distributed pro rata.
    pub native_mint: u64,
    /// Token kind participants pay in.
    pub deposit_token_mint: u64,
    /// The pool's own vault for native tokens.
    pub pool_native: u64,
    /// The pool's own vault for deposit tokens.
    pub pool_deposit_token: u64,
    /// Fixed number of native tokens committed at creation.
    pub total_native_tokens: u64,
    /// Opening timestamp of the deposit window.
    pub start_ido_ts: i64,
    /// Closing timestamp of the deposit window.
    pub end_ido_ts: i64,
    /// Timestamp after which the organizer may take the deposits out.
    pub withdraw_deposit_token_ts: i64,
    /// Derivation salt with which the pool authorizes its own vaults.
    pub bump: u8,
}

impl PoolAccount {
    /// What creation establishes and nothing afterwards disturbs: the
    /// three timestamps strictly increase and the committed amount is
    /// positive.
    pub open spec fn wf(self) -> bool {
        &&& self.start_ido_ts < self.end_ido_ts
        &&& self.end_ido_ts < self.withdraw_deposit_token_ts
        &&& self.total_native_tokens > 0
    }
}

/// The accounts creation touches: the creator, the identifiers the new
/// record will carry, the claim-token issuance record, and the two
/// native-token balances moved between.
#[derive(Clone, Copy, Debug, PartialEq, Eq, Structural)]
pub struct InitializePool {
    /// Identity of the creator, already authenticated by the caller.
    pub authority: u64,
    pub redeemable_mint_id: u64,
    pub native_mint_id: u64,
    pub deposit_token_mint_id: u64,
    pub pool_native_id: u64,
    pub pool_deposit_token_id: u64,
    /// Issuance record of the claim token; fresh, so its supply is zero.
    pub redeemable_mint: Mint,
    /// The creator's native-token balance, the source of the commitment.
    pub creator_native: TokenAccount,
    /// The pool's native vault; fresh, so its balance is zero.
    pub pool_native: TokenAccount,
}

/// The accounts a deposit touches.
#[derive(Clone, Copy, Debug, PartialEq, Eq, Structural)]
pub struct ExchangeDepositTokenForRedeemable {
    /// Identity of the depositor, already authenticated by the caller.
    pub authority: u64,
    /// Issuance record of the claim token.
    pub redeemable_mint: Mint,
    /// The pool's deposit vault.
    pub pool_deposit_token: TokenAccount,
    /// The depositor's deposit-token balance.
    pub depositor_deposit_token: TokenAccount,
    /// The depositor's claim balance.
    pub depositor_redeemable: TokenAccount,
}

/// The accounts a redemption touches.
#[derive(Clone, Copy, Debug, PartialEq, Eq, Structural)]
pub struct ExchangeRedeemableForNative {
    /// Identity of the redeemer, already authenticated by the caller.
    pub authority: u64,
    /// Issuance record of the claim token.
    pub redeemable_mint: Mint,
    /// The pool's native vault.
    pub pool_native: TokenAccount,
    /// The redeemer's native-token balance.
    pub depositor_native: TokenAccount,
    /// The redeemer's claim balance, redeemed whole.
    pub depositor_redeemable: TokenAccount,
}

/// The accounts the organizer's withdrawal touches.
#[derive(Clone, Copy, Debug, PartialEq, Eq, Structural)]
pub struct WithdrawPoolDepositToken {
    /// Identity paying for the call, already authenticated by the caller.
    pub payer: u64,
    /// The pool's deposit vault, emptied whole.
    pub pool_deposit_token: TokenAccount,
    /// The organizer's deposit-token balance.
    pub creator_deposit_token: TokenAccount,
}

/// The pro-rata settlement formula: the floor of
/// `claim_balance * vault_balance / claim_supply`.
///
/// Every redemption applies it to the balances as they stand at that
/// moment, so the last redeemer receives exactly what is left.
pub open spec fn payout(claim_balance: int, vault_balance: int, claim_supply: int) -> int {
    claim_balance * vault_balance / claim_supply
}

/// A redemption never pays more than the vault holds: while the claim
/// balance is at most the claim supply, the pro-rata share is bounded by
/// the whole vault, and is never negative.
pub proof fn lemma_payout_le_vault(claim_balance: int, vault_balance: int, claim_supply: int)
    requires
        0 <= claim_balance,
        claim_balance <= claim_supply,
        0 <= vault_balance,
        0 < claim_supply,
    ensures
        0 <= payout(claim_balance, vault_balance, claim_supply),
        payout(claim_balance, vault_balance, claim_supply) <= vault_balance,
{
    lemma_mul_nonnegative(claim_balance, vault_balance);
    lemma_div_pos_is_pos(claim_balance * vault_balance, claim_supply);
    lemma_mul_inequality(claim_balance, claim_supply, vault_balance);
    lemma_div_is_ordered(claim_balance * vault_balance, claim_supply * vault_balance, claim_supply);
    lemma_div_multiples_vanish(vault_balance, claim_supply);
}

/// A participant holding the entire claim supply is paid the entire
/// vault: truncation loses nothing for the last redeemer.
pub proof fn lemma_payout_full_supply(vault_balance: int, claim_supply: int)
    requires
        0 < claim_supply,
    ensures
        payout(claim_supply, vault_balance, claim_supply) == vault_balance,
{
    lemma_div_multiples_vanish(vault_balance, claim_supply);
}

/// When the claim supply divides the product exactly, the payout is the
/// exact pro-rata share with no truncation loss.
pub proof fn lemma_payout_exact_when_divisible(
    claim_balance: int,
    vault_balance: int,
    claim_supply: int,
)
    requires
        0 < claim_supply,
        (claim_balance * vault_balance) % claim_supply == 0,
    ensures
        payout(claim_balance, vault_balance, claim_supply) * claim_supply == claim_balance
            * vault_balance,
{
    vstd::arithmetic::div_mod::lemma_fundamental_div_mod(
        claim_balance * vault_balance,
        claim_supply,
    );
    vstd::arithmetic::mul::lemma_mul_is_commutative(
        payout(claim_balance, vault_balance, claim_supply),
        claim_supply,
    );
}

/// Two participants holding the entire claim supply between them are
/// together paid the entire vault when they redeem one after the other:
/// the second redemption is evaluated against the remaining vault and
/// the remaining supply, so whatever truncation the first one left
/// behind goes to the second.
pub proof fn lemma_two_redemptions_drain_vault(c1: int, c2: int, v: int)
    requires
        0 <= c1,
        0 < c2,
        0 <= v,
    ensures
        payout(c1, v, c1 + c2) + payout(c2, v - payout(c1, v, c1 + c2), c2) == v,
{
    lemma_payout_le_vault(c1, v, c1 + c2);
    lemma_payout_full_supply(v - payout(c1, v, c1 + c2), c2);
}

/// The inputs on which creation succeeds: the clock still stands in the
/// setup window, the timestamps strictly increase, the commitment is
/// positive and the creator can cover it.
pub open spec fn initialize_ok(
    accounts: InitializePool,
    total_native_tokens: u64,
    start_ido_ts: i64,
    end_ido_ts: i64,
    withdraw_deposit_token_ts: i64,
    now: i64,
) -> bool {
    &&& in_setup_phase(start_ido_ts, now)
    &&& start_ido_ts < end_ido_ts
    &&& end_ido_ts < withdraw_deposit_token_ts
    &&& total_native_tokens > 0
    &&& accounts.creator_native.amount >= total_native_tokens
}

/// The record a successful creation persists.
pub open spec fn created_pool(
    accounts: InitializePool,
    total_native_tokens: u64,
    start_ido_ts: i64,
    end_ido_ts: i64,
    withdraw_deposit_token_ts: i64,
    bump: u8,
) -> PoolAccount {
    PoolAccount {
        pool_authority: accounts.authority,
        redeemable_mint: accounts.redeemable_mint_id,
        native_mint: accounts.native_mint_id,
        deposit_token_mint: accounts.deposit_token_mint_id,
        pool_native: accounts.pool_native_id,
        pool_deposit_token: accounts.pool_deposit_token_id,
        total_native_tokens: total_native_tokens,
        start_ido_ts: start_ido_ts,
        end_ido_ts: end_ido_ts,
        withdraw_deposit_token_ts: withdraw_deposit_token_ts,
        bump: bump,
    }
}

/// Create a pool: persist the record and move the committed native
/// tokens from the creator into the pool's native vault.
///
/// The checks run in a fixed order: the phase, the timestamp ordering,
/// the amount, the ledger transfer; the earliest failure rejects the
/// whole call with nothing changed.
pub fn initialize_pool(
    accounts: &mut InitializePool,
    total_native_tokens: u64,
    start_ido_ts: i64,
    end_ido_ts: i64,
    withdraw_deposit_token_ts: i64,
    bump: u8,
    now: i64,
) -> (r: Result<PoolAccount, Error>)
    requires
        old(accounts).redeemable_mint.supply == 0,
        old(accounts).pool_native.amount == 0,
    ensures
        !in_setup_phase(start_ido_ts, now) ==> r == Err::<PoolAccount, Error>(
            Error::Code(ErrorCode::IdoFuture),
        ),
        in_setup_phase(start_ido_ts, now) && !(start_ido_ts < end_ido_ts && end_ido_ts
            < withdraw_deposit_token_ts) ==> r == Err::<PoolAccount, Error>(
            Error::Code(ErrorCode::NonSequentialTimestamps),
        ),
        in_setup_phase(start_ido_ts, now) && start_ido_ts < end_ido_ts && end_ido_ts
            < withdraw_deposit_token_ts && total_native_tokens == 0 ==> r == Err::<
            PoolAccount,
            Error,
        >(Error::Code(ErrorCode::InvalidParameter)),
        in_setup_phase(start_ido_ts, now) && start_ido_ts < end_ido_ts && end_ido_ts
            < withdraw_deposit_token_ts && total_native_tokens > 0 && old(
            accounts,
        ).creator_native.amount < total_native_tokens ==> r == Err::<PoolAccount, Error>(
            Error::Ledger(LedgerError::InsufficientFunds),
        ),
        initialize_ok(
            *old(accounts),
            total_native_tokens,
            start_ido_ts,
            end_ido_ts,
            withdraw_deposit_token_ts,
            now,
        ) ==> {
            &&& r == Ok::<PoolAccount, Error>(
                created_pool(
                    *old(accounts),
                    total_native_tokens,
                    start_ido_ts,
                    end_ido_ts,
                    withdraw_deposit_token_ts,
                    bump,
                ),
            )
            &&& final(accounts).creator_native.amount == old(accounts).creator_native.amount
                - total_native_tokens
            &&& final(accounts).pool_native.amount == total_native_tokens
            &&& final(accounts).redeemable_mint.supply == 0
        },
        r matches Ok(pool) ==> pool.wf(),
        r is Err ==> *final(accounts) == *old(accounts),
        final(accounts).authority == old(accounts).authority,
        final(accounts).redeemable_mint_id == old(accounts).redeemable_mint_id,
        final(accounts).native_mint_id == old(accounts).native_mint_id,
        final(accounts).deposit_token_mint_id == old(accounts).deposit_token_mint_id,
        final(accounts).pool_native_id == old(accounts).pool_native_id,
        final(accounts).pool_deposit_token_id == old(accounts).pool_deposit_token_id,
{
    match phase::pre_ido_phase(start_ido_ts, now) {
        Ok(()) => {},
        Err(code) => {
            return Err(Error::Code(code));
        },
    }
    if !(start_ido_ts < end_ido_ts && end_ido_ts < withdraw_deposit_token_ts) {
        return Err(Error::Code(ErrorCode::NonSequentialTimestamps));
    }
    if total_native_tokens == 0 {
        return Err(Error::Code(ErrorCode::InvalidParameter));
    }
    let pool = PoolAccount {
        pool_authority: accounts.authority,
        redeemable_mint: accounts.redeemable_mint_id,
        native_mint: accounts.native_mint_id,
        deposit_token_mint: accounts.deposit_token_mint_id,
        pool_native: accounts.pool_native_id,
        pool_deposit_token: accounts.pool_deposit_token_id,
        total_native_tokens: total_native_tokens,
        start_ido_ts: start_ido_ts,
        end_ido_ts: end_ido_ts,
        withdraw_deposit_token_ts: withdraw_deposit_token_ts,
        bump: bump,
    };
    match ledger::transfer(&mut accounts.creator_native, &mut accounts.pool_native, total_native_tokens) {
        Ok(()) => {},
        Err(e) => {
            return Err(Error::Ledger(e));
        },
    }
    Ok(pool)
}

/// The inputs on which a deposit succeeds: the clock stands in the open
/// window, the amount is positive, the depositor can cover it, and no
/// touched counter leaves the 64-bit range.
pub open spec fn deposit_ok(
    pool: PoolAccount,
    accounts: ExchangeDepositTokenForRedeemable,
    amount: u64,
    now: i64,
) -> bool {
    &&& in_open_phase(pool, now)
    &&& amount > 0
    &&& accounts.depositor_deposit_token.amount >= amount
    &&& accounts.pool_deposit_token.amount + amount <= u64::MAX
    &&& accounts.redeemable_mint.supply + amount <= u64::MAX
    &&& accounts.depositor_redeemable.amount + amount <= u64::MAX
}

/// Deposit `amount` deposit tokens and receive exactly `amount` claim
/// tokens: the transfer into the pool's deposit vault and the mint into
/// the depositor's claim balance stand or fall together.
///
/// The fixed one-to-one rate shows in the contract: every successful call
/// moves the same `amount` through all four counters, conserving the
/// total of the two deposit-token balances and keeping the claim supply
/// equal to the sum of minted claims.
pub fn exchange_deposit_token_for_redeemable(
    pool: &PoolAccount,
    accounts: &mut ExchangeDepositTokenForRedeemable,
    amount: u64,
    now: i64,
) -> (r: Result<(), Error>)
    ensures
        !in_open_phase(*pool, now) ==> r == Err::<(), Error>(
            Error::Code(ErrorCode::WrongInvestingTime),
        ),
        in_open_phase(*pool, now) && amount == 0 ==> r == Err::<(), Error>(
            Error::Code(ErrorCode::InvalidParameter),
        ),
        in_open_phase(*pool, now) && amount > 0 && old(accounts).depositor_deposit_token.amount
            < amount ==> r == Err::<(), Error>(Error::Code(ErrorCode::LowDepositToken)),
        in_open_phase(*pool, now) && amount > 0 && old(accounts).depositor_deposit_token.amount
            >= amount && !deposit_ok(*pool, *old(accounts), amount, now) ==> r == Err::<(), Error>(
            Error::Ledger(LedgerError::Overflow),
        ),
        deposit_ok(*pool, *old(accounts), amount, now) ==> {
            &&& r is Ok
            &&& final(accounts).depositor_deposit_token.amount == old(
                accounts,
            ).depositor_deposit_token.amount - amount
            &&& final(accounts).pool_deposit_token.amount == old(
                accounts,
            ).pool_deposit_token.amount + amount
            &&& final(accounts).depositor_redeemable.amount == old(
                accounts,
            ).depositor_redeemable.amount + amount
            &&& final(accounts).redeemable_mint.supply == old(accounts).redeemable_mint.supply
                + amount
        },
        r is Err ==> *final(accounts) == *old(accounts),
        final(accounts).authority == old(accounts).authority,
        final(accounts).depositor_deposit_token.amount + final(accounts).pool_deposit_token.amount
            == old(accounts).depositor_deposit_token.amount + old(
            accounts,
        ).pool_deposit_token.amount,
{
    match phase::unrestricted_phase(pool, now) {
        Ok(()) => {},
        Err(code) => {
            return Err(Error::Code(code));
        },
    }
    if amount == 0 {
        return Err(Error::Code(ErrorCode::InvalidParameter));
    }
    if accounts.depositor_deposit_token.amount < amount {
        return Err(Error::Code(ErrorCode::LowDepositToken));
    }
    // Every counter the two ledger steps will touch is checked up front,
    // so that the transfer and the mint cannot fail halfway and leave a
    // partial effect behind.
    if amount > u64::MAX - accounts.pool_deposit_token.amount {
        return Err(Error::Ledger(LedgerError::Overflow));
    }
    if amount > u64::MAX - accounts.redeemable_mint.supply {
        return Err(Error::Ledger(LedgerError::Overflow));
    }
    if amount > u64::MAX - accounts.depositor_redeemable.amount {
        return Err(Error::Ledger(LedgerError::Overflow));
    }
    match ledger::transfer(
        &mut accounts.depositor_deposit_token,
        &mut accounts.pool_deposit_token,
        amount,
    ) {
        Ok(()) => {},
        Err(e) => {
            return Err(Error::Ledger(e));
        },
    }
    match ledger::mint_to(&mut accounts.redeemable_mint, &mut accounts.depositor_redeemable, amount) {
        Ok(()) => {},
        Err(e) => {
            return Err(Error::Ledger(e));
        },
    }
    Ok(())
}

/// The inputs on which a redemption succeeds: the clock stands after the
/// close, claims are outstanding, and the redeemer's native balance can
/// absorb the payout.
pub open spec fn redeem_ok(
    pool: PoolAccount,
    accounts: ExchangeRedeemableForNative,
    now: i64,
) -> bool {
    &&& in_closed_phase(pool, now)
    &&& accounts.redeemable_mint.supply > 0
    &&& accounts.depositor_native.amount + payout(
        accounts.depositor_redeemable.amount as int,
        accounts.pool_native.amount as int,
        accounts.redeemable_mint.supply as int,
    ) <= u64::MAX
}

/// Redeem the participant's entire claim balance for its pro-rata share
/// of the native vault, evaluated against the vault and the supply as
/// they stand now.
///
/// The whole claim balance is burned and exactly
/// `floor(claim_balance * vault_balance / claim_supply)` native tokens
/// move from the vault to the redeemer; a zero claim supply is rejected
/// before any division. The total of the two native balances is
/// conserved.
pub fn exchange_redeemable_for_native(
    pool: &PoolAccount,
    accounts: &mut ExchangeRedeemableForNative,
    now: i64,
) -> (r: Result<(), Error>)
    requires
        old(accounts).depositor_redeemable.amount <= old(accounts).redeemable_mint.supply,
    ensures
        !in_closed_phase(*pool, now) ==> r == Err::<(), Error>(Error::Code(ErrorCode::IdoNotOver)),
        in_closed_phase(*pool, now) && old(accounts).redeemable_mint.supply == 0 ==> r == Err::<
            (),
            Error,
        >(Error::Code(ErrorCode::NothingToRedeem)),
        in_closed_phase(*pool, now) && old(accounts).redeemable_mint.supply > 0 && !redeem_ok(
            *pool,
            *old(accounts),
            now,
        ) ==> r == Err::<(), Error>(Error::Ledger(LedgerError::Overflow)),
        redeem_ok(*pool, *old(accounts), now) ==> {
            &&& r is Ok
            &&& final(accounts).depositor_redeemable.amount == 0
            &&& final(accounts).redeemable_mint.supply == old(accounts).redeemable_mint.supply
                - old(accounts).depositor_redeemable.amount
            &&& final(accounts).pool_native.amount == old(accounts).pool_native.amount - payout(
                old(accounts).depositor_redeemable.amount as int,
                old(accounts).pool_native.amount as int,
                old(accounts).redeemable_mint.supply as int,
            )
            &&& final(accounts).depositor_native.amount == old(accounts).depositor_native.amount
                + payout(
                old(accounts).depositor_redeemable.amount as int,
                old(accounts).pool_native.amount as int,
                old(accounts).redeemable_mint.supply as int,
            )
        },
        r is Err ==> *final(accounts) == *old(accounts),
        final(accounts).authority == old(accounts).authority,
        final(accounts).pool_native.amount + final(accounts).depositor_native.amount == old(
            accounts,
        ).pool_native.amount + old(accounts).depositor_native.amount,
{
    match phase::ido_over(pool, now) {
        Ok(()) => {},
        Err(code) => {
            return Err(Error::Code(code));
        },
    }
    if accounts.redeemable_mint.supply == 0 {
        return Err(Error::Code(ErrorCode::NothingToRedeem));
    }
    let claim_balance: u64 = accounts.depositor_redeemable.amount;
    let vault_balance: u64 = accounts.pool_native.amount;
    let claim_supply: u64 = accounts.redeemable_mint.supply;
    proof {
        lemma_mul_upper_bound(
            claim_balance as int,
            u64::MAX as int,
            vault_balance as int,
            u64::MAX as int,
        );
        lemma_payout_le_vault(claim_balance as int, vault_balance as int, claim_supply as int);
    }
    let wide_product: u128 = (claim_balance as u128) * (vault_balance as u128);
    let native_amount: u64 = (wide_product / (claim_supply as u128)) as u64;
    if native_amount > u64::MAX - accounts.depositor_native.amount {
        return Err(Error::Ledger(LedgerError::Overflow));
    }
    match ledger::burn(&mut accounts.redeemable_mint, &mut accounts.depositor_redeemable, claim_balance) {
        Ok(()) => {},
        Err(e) => {
            return Err(Error::Ledger(e));
        },
    }
    match ledger::transfer(&mut accounts.pool_native, &mut accounts.depositor_native, native_amount) {
        Ok(()) => {},
        Err(e) => {
            return Err(Error::Ledger(e));
        },
    }
    Ok(())
}

/// The inputs on which the organizer's withdrawal succeeds: the clock
/// stands after the withdrawal timestamp and the receiving balance can
/// absorb the whole vault.
pub open spec fn withdraw_ok(
    pool: PoolAccount,
    accounts: WithdrawPoolDepositToken,
    now: i64,
) -> bool {
    &&& in_withdraw_phase(pool, now)
    &&& accounts.creator_deposit_token.amount + accounts.pool_deposit_token.amount <= u64::MAX
}

/// Move the entire current balance of the pool's deposit vault to the
/// organizer; an empty vault makes the call a legal no-op transfer.
pub fn withdraw_pool_deposit_token(
    pool: &PoolAccount,
    accounts: &mut WithdrawPoolDepositToken,
    now: i64,
) -> (r: Result<(), Error>)
    ensures
        !in_withdraw_phase(*pool, now) ==> r == Err::<(), Error>(
            Error::Code(ErrorCode::CannotWithdrawYet),
        ),
        in_withdraw_phase(*pool, now) && !withdraw_ok(*pool, *old(accounts), now) ==> r == Err::<
            (),
            Error,
        >(Error::Ledger(LedgerError::Overflow)),
        withdraw_ok(*pool, *old(accounts), now) ==> {
            &&& r is Ok
            &&& final(accounts).pool_deposit_token.amount == 0
            &&& final(accounts).creator_deposit_token.amount == old(
                accounts,
            ).creator_deposit_token.amount + old(accounts).pool_deposit_token.amount
        },
        r is Err ==> *final(accounts) == *old(accounts),
        final(accounts).payer == old(accounts).payer,
        final(accounts).pool_deposit_token.amount + final(accounts).creator_deposit_token.amount
            == old(accounts).pool_deposit_token.amount + old(accounts).creator_deposit_token.amount,
{
    match phase::can_withdraw_deposit_token(pool, now) {
        Ok(()) => {},
        Err(code) => {
            return Err(Error::Code(code));
        },
    }
    let vault_balance: u64 = accounts.pool_deposit_token.amount;
    match ledger::transfer(
        &mut accounts.pool_deposit_token,
        &mut accounts.creator_deposit_token,
        vault_balance,
    ) {
        Ok(()) => {},
        Err(e) => {
            return Err(Error::Ledger(e));
        },
    }
    Ok(())
}

} // verus!
