use vstd::prelude::*;

use crate::errors::ErrorCode;
use crate::pool::PoolAccount;

verus! {

/// Setup: strictly before the opening timestamp. Creation alone is legal
/// here, and only here.
pub open spec fn in_setup_phase(start_ido_ts: i64, now: i64) -> bool {
    now < start_ido_ts
}

/// Open: strictly between the opening and the closing timestamps. Deposits
/// alone are legal here.
pub open spec fn in_open_phase(pool: PoolAccount, now: i64) -> bool {
    pool.start_ido_ts < now && now < pool.end_ido_ts
}

/// Closed: strictly after the closing timestamp. Redemptions alone are
/// legal here.
pub open spec fn in_closed_phase(pool: PoolAccount, now: i64) -> bool {
    pool.end_ido_ts < now
}

/// Withdrawable: strictly after the withdrawal timestamp. The organizer's
/// withdrawal alone is legal here. This window overlaps the closed one;
/// each gate checks only its own boundary.
pub open spec fn in_withdraw_phase(pool: PoolAccount, now: i64) -> bool {
    pool.withdraw_deposit_token_ts < now
}

/// Gate for pool creation: passes exactly while the clock still stands
/// before the opening timestamp.
pub fn pre_ido_phase(start_ido_ts: i64, now: i64) -> (r: Result<(), ErrorCode>)
    ensures
        r is Ok <==> in_setup_phase(start_ido_ts, now),
        r is Err ==> r == Err::<(), ErrorCode>(ErrorCode::IdoFuture),
{
    if !(now < start_ido_ts) {
        return Err(ErrorCode::IdoFuture);
    }
    Ok(())
}

/// Gate for deposits: passes exactly while the clock stands strictly
/// inside the open window.
pub fn unrestricted_phase(pool: &PoolAccount, now: i64) -> (r: Result<(), ErrorCode>)
    ensures
        r is Ok <==> in_open_phase(*pool, now),
        r is Err ==> r == Err::<(), ErrorCode>(ErrorCode::WrongInvestingTime),
{
    if !(pool.start_ido_ts < now && pool.end_ido_ts > now) {
        return Err(ErrorCode::WrongInvestingTime);
    }
    Ok(())
}

/// Gate for redemptions: passes exactly once the clock stands strictly
/// after the closing timestamp.
pub fn ido_over(pool: &PoolAccount, now: i64) -> (r: Result<(), ErrorCode>)
    ensures
        r is Ok <==> in_closed_phase(*pool, now),
        r is Err ==> r == Err::<(), ErrorCode>(ErrorCode::IdoNotOver),
{
    if !(pool.end_ido_ts < now) {
        return Err(ErrorCode::IdoNotOver);
    }
    Ok(())
}

/// Gate for the organizer's withdrawal: passes exactly once the clock
/// stands strictly after the withdrawal timestamp.
pub fn can_withdraw_deposit_token(pool: &PoolAccount, now: i64) -> (r: Result<(), ErrorCode>)
    ensures
        r is Ok <==> in_withdraw_phase(*pool, now),
        r is Err ==> r == Err::<(), ErrorCode>(ErrorCode::CannotWithdrawYet),
{
    if !(pool.withdraw_deposit_token_ts < now) {
        return Err(ErrorCode::CannotWithdrawYet);
    }
    Ok(())
}

} // verus!
