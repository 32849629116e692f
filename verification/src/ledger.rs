use vstd::prelude::*;

use crate::errors::LedgerError;

verus! {

/// One fungible-token balance held by a participant or by a pool vault.
///
/// The surrounding ledger keys such accounts by identifier; this library
/// only ever reads and writes the balance, so the balance is all the
/// model carries.
#[derive(Clone, Copy, Debug, PartialEq, Eq, Structural)]
pub struct TokenAccount {
    pub amount: u64,
}

/// The issuance record of one token kind: the total supply outstanding
/// across every account, grown by minting and shrunk by burning.
#[derive(Clone, Copy, Debug, PartialEq, Eq, Structural)]
pub struct Mint {
    pub supply: u64,
}

/// Move `amount` tokens between two accounts of the same token kind.
///
/// Rejects, changing nothing, when the source cannot cover the amount or
/// the destination balance would leave the 64-bit range.
pub fn transfer(from: &mut TokenAccount, to: &mut TokenAccount, amount: u64) -> (r: Result<
    (),
    LedgerError,
>)
    ensures
        old(from).amount < amount ==> r == Err::<(), LedgerError>(LedgerError::InsufficientFunds),
        old(from).amount >= amount && old(to).amount + amount > u64::MAX ==> r == Err::<
            (),
            LedgerError,
        >(LedgerError::Overflow),
        old(from).amount >= amount && old(to).amount + amount <= u64::MAX ==> {
            &&& r is Ok
            &&& final(from).amount == old(from).amount - amount
            &&& final(to).amount == old(to).amount + amount
        },
        r is Err ==> *final(from) == *old(from) && *final(to) == *old(to),
{
    if from.amount < amount {
        return Err(LedgerError::InsufficientFunds);
    }
    if amount > u64::MAX - to.amount {
        return Err(LedgerError::Overflow);
    }
    from.amount = from.amount - amount;
    to.amount = to.amount + amount;
    Ok(())
}

/// Create `amount` new tokens in `to`, growing the supply by the same
/// amount.
///
/// Rejects, changing nothing, when either the supply or the destination
/// balance would leave the 64-bit range.
pub fn mint_to(mint: &mut Mint, to: &mut TokenAccount, amount: u64) -> (r: Result<(), LedgerError>)
    ensures
        old(mint).supply + amount > u64::MAX || old(to).amount + amount > u64::MAX ==> r == Err::<
            (),
            LedgerError,
        >(LedgerError::Overflow),
        old(mint).supply + amount <= u64::MAX && old(to).amount + amount <= u64::MAX ==> {
            &&& r is Ok
            &&& final(mint).supply == old(mint).supply + amount
            &&& final(to).amount == old(to).amount + amount
        },
        r is Err ==> *final(mint) == *old(mint) && *final(to) == *old(to),
{
    if amount > u64::MAX - mint.supply {
        return Err(LedgerError::Overflow);
    }
    if amount > u64::MAX - to.amount {
        return Err(LedgerError::Overflow);
    }
    mint.supply = mint.supply + amount;
    to.amount = to.amount + amount;
    Ok(())
}

/// Destroy `amount` tokens held in `from`, shrinking the supply by the
/// same amount.
///
/// Rejects, changing nothing, when the account balance or the recorded
/// supply cannot cover the amount.
pub fn burn(mint: &mut Mint, from: &mut TokenAccount, amount: u64) -> (r: Result<(), LedgerError>)
    ensures
        old(from).amount < amount || old(mint).supply < amount ==> r == Err::<(), LedgerError>(
            LedgerError::InsufficientFunds,
        ),
        old(from).amount >= amount && old(mint).supply >= amount ==> {
            &&& r is Ok
            &&& final(mint).supply == old(mint).supply - amount
            &&& final(from).amount == old(from).amount - amount
        },
        r is Err ==> *final(mint) == *old(mint) && *final(from) == *old(from),
{
    if from.amount < amount {
        return Err(LedgerError::InsufficientFunds);
    }
    if mint.supply < amount {
        return Err(LedgerError::InsufficientFunds);
    }
    mint.supply = mint.supply - amount;
    from.amount = from.amount - amount;
    Ok(())
}

} // verus!
