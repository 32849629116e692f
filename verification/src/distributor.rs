use vstd::prelude::*;

use crate::errors::LedgerError;
use crate::ledger;
use crate::ledger::{Mint, TokenAccount};

verus! {

/// Derivation salts with which the distributor record and its token kind
/// authorize themselves.
#[derive(Clone, Copy, Debug, PartialEq, Eq, Structural)]
pub struct DistributorBumps {
    pub distributor_account: u8,
    pub token_mint: u8,
}

/// The single-authority faucet's record: one token kind it may mint at
/// will, and a running total of everything it has issued.
#[derive(Clone, Debug)]
pub struct DistributorAccount {
    pub is_initialized: bool,
    pub bumps: DistributorBumps,
    pub distributor_name: String,
    pub token_mint: u64,
    pub creator_authority: u64,
    pub token_supply: u64,
}

/// The accounts faucet creation touches: the creator and the identifier
/// of the freshly created token kind.
#[derive(Clone, Debug)]
pub struct InitializeDistributor {
    /// Identity of the creator, already authenticated by the caller.
    pub distributor_creator: u64,
    pub token_mint_id: u64,
}

/// The accounts one faucet grant touches.
#[derive(Clone, Debug)]
pub struct GetToken {
    pub distributor_account: DistributorAccount,
    /// Issuance record of the faucet's token kind.
    pub token_mint: Mint,
    /// The requesting user's balance of that token kind.
    pub user_token_account: TokenAccount,
    /// Identity of the requesting user, already authenticated by the
    /// caller.
    pub user: u64,
}

/// Create a faucet record: named, marked initialized, bound to its token
/// kind and creator, with nothing issued yet.
pub fn initialize_distributor(
    accounts: &InitializeDistributor,
    distributor_name: String,
    bumps: DistributorBumps,
) -> (d: DistributorAccount)
    ensures
        d.is_initialized,
        d.bumps == bumps,
        d.distributor_name@ == distributor_name@,
        d.token_mint == accounts.token_mint_id,
        d.creator_authority == accounts.distributor_creator,
        d.token_supply == 0,
{
    DistributorAccount {
        is_initialized: true,
        bumps: bumps,
        distributor_name: distributor_name,
        token_mint: accounts.token_mint_id,
        creator_authority: accounts.distributor_creator,
        token_supply: 0,
    }
}

/// Mint `amount` faucet tokens to the requesting user and add the same
/// amount to the faucet's running total of issued tokens.
///
/// The running total is only advanced after the mint has gone through;
/// a mint the ledger rejects changes nothing. Inputs on which the
/// running total itself would leave the 64-bit range are excluded, as
/// the record keeps no way to report them.
pub fn get_token(accounts: &mut GetToken, amount: u64) -> (r: Result<(), LedgerError>)
    requires
        old(accounts).distributor_account.token_supply + amount <= u64::MAX,
    ensures
        old(accounts).token_mint.supply + amount > u64::MAX || old(
            accounts,
        ).user_token_account.amount + amount > u64::MAX ==> r == Err::<(), LedgerError>(
            LedgerError::Overflow,
        ),
        old(accounts).token_mint.supply + amount <= u64::MAX && old(
            accounts,
        ).user_token_account.amount + amount <= u64::MAX ==> {
            &&& r is Ok
            &&& final(accounts).token_mint.supply == old(accounts).token_mint.supply + amount
            &&& final(accounts).user_token_account.amount == old(accounts).user_token_account.amount
                + amount
            &&& final(accounts).distributor_account.token_supply == old(
                accounts,
            ).distributor_account.token_supply + amount
        },
        r is Err ==> {
            &&& final(accounts).token_mint == old(accounts).token_mint
            &&& final(accounts).user_token_account == old(accounts).user_token_account
            &&& final(accounts).distributor_account.token_supply == old(
                accounts,
            ).distributor_account.token_supply
        },
        final(accounts).user == old(accounts).user,
        final(accounts).distributor_account.is_initialized == old(
            accounts,
        ).distributor_account.is_initialized,
        final(accounts).distributor_account.bumps == old(accounts).distributor_account.bumps,
        final(accounts).distributor_account.distributor_name@ == old(
            accounts,
        ).distributor_account.distributor_name@,
        final(accounts).distributor_account.token_mint == old(
            accounts,
        ).distributor_account.token_mint,
        final(accounts).distributor_account.creator_authority == old(
            accounts,
        ).distributor_account.creator_authority,
{
    match ledger::mint_to(&mut accounts.token_mint, &mut accounts.user_token_account, amount) {
        Ok(()) => {},
        Err(e) => {
            return Err(e);
        },
    }
    accounts.distributor_account.token_supply = accounts.distributor_account.token_supply + amount;
    Ok(())
}

} // verus!
