use vstd::prelude::*;

verus! {

/// Rejections raised by the pool's own validation and phase gates.
///
/// Every rejection is total: an operation that returns one of these has
/// changed no balance and no record.
#[derive(Clone, Copy, Debug, PartialEq, Eq, Structural)]
pub enum ErrorCode {
    /// The three pool timestamps are not strictly increasing.
    NonSequentialTimestamps,
    /// A zero amount was supplied where a positive one is required.
    InvalidParameter,
    /// Pool creation was attempted at or after the opening timestamp.
    IdoFuture,
    /// A deposit was attempted outside the open window.
    WrongInvestingTime,
    /// The depositor holds fewer deposit tokens than the requested amount.
    LowDepositToken,
    /// A redemption was attempted at or before the closing timestamp.
    IdoNotOver,
    /// A withdrawal was attempted at or before the withdrawal timestamp.
    CannotWithdrawYet,
    /// A redemption was attempted while the claim-token supply is zero.
    NothingToRedeem,
}

/// Rejections raised by the token ledger's transfer, mint and burn
/// primitives.
#[derive(Clone, Copy, Debug, PartialEq, Eq, Structural)]
pub enum LedgerError {
    /// The source balance (or, for a burn, the supply) cannot cover the
    /// amount.
    InsufficientFunds,
    /// A balance or a supply would leave the range of a 64-bit counter.
    Overflow,
}

/// Everything an operation of this library can return on failure: one of
/// the pool's own codes, or a rejection surfaced by the token ledger.
#[derive(Clone, Copy, Debug, PartialEq, Eq, Structural)]
pub enum Error {
    Code(ErrorCode),
    Ledger(LedgerError),
}

} // verus!
