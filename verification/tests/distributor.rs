use ido_pool::distributor::{
    get_token, initialize_distributor, DistributorBumps, GetToken, InitializeDistributor,
};
use ido_pool::errors::LedgerError;
use ido_pool::ledger::{Mint, TokenAccount};

fn fresh_distributor() -> ido_pool::distributor::DistributorAccount {
    let accounts = InitializeDistributor {
        distributor_creator: 21,
        token_mint_id: 77,
    };
    initialize_distributor(
        &accounts,
        String::from("community faucet"),
        DistributorBumps {
            distributor_account: 3,
            token_mint: 4,
        },
    )
}

#[test]
fn initialize_distributor_starts_with_nothing_issued() {
    let d = fresh_distributor();
    assert!(d.is_initialized);
    assert_eq!(d.distributor_name, "community faucet");
    assert_eq!(d.token_mint, 77);
    assert_eq!(d.creator_authority, 21);
    assert_eq!(d.token_supply, 0);
    assert_eq!(d.bumps.distributor_account, 3);
    assert_eq!(d.bumps.token_mint, 4);
}

#[test]
fn get_token_mints_and_tracks_cumulative_supply() {
    let mut accounts = GetToken {
        distributor_account: fresh_distributor(),
        token_mint: Mint { supply: 0 },
        user_token_account: TokenAccount { amount: 2 },
        user: 33,
    };
    assert_eq!(get_token(&mut accounts, 40), Ok(()));
    assert_eq!(get_token(&mut accounts, 2), Ok(()));
    assert_eq!(accounts.token_mint.supply, 42);
    assert_eq!(accounts.user_token_account.amount, 44);
    assert_eq!(accounts.distributor_account.token_supply, 42);
}

#[test]
fn get_token_rejects_mint_overflow_untouched() {
    let mut accounts = GetToken {
        distributor_account: fresh_distributor(),
        token_mint: Mint { supply: u64::MAX - 1 },
        user_token_account: TokenAccount { amount: 0 },
        user: 33,
    };
    assert_eq!(get_token(&mut accounts, 2), Err(LedgerError::Overflow));
    assert_eq!(accounts.token_mint.supply, u64::MAX - 1);
    assert_eq!(accounts.user_token_account.amount, 0);
    assert_eq!(accounts.distributor_account.token_supply, 0);
}
