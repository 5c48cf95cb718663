use amm_swap::engine::{quote, swap};
use amm_swap::ident::Ident;
use amm_swap::math::compute_amount_out;
use amm_swap::state::{ErrorCode, Pool, Swap, Vault};

fn id(n: u8) -> Ident {
    Ident { bytes: [n; 32] }
}

fn vault(n: u8, asset: u8, owner: u8, balance: u64) -> Vault {
    Vault { id: id(n), asset: id(asset), owner: id(owner), balance }
}

/// A pool over asset types 1 (vault 3) and 2 (vault 4), owned by authority 9.
fn pool() -> Pool {
    Pool {
        authority: id(9),
        mint_a: id(1),
        mint_b: id(2),
        vault_a: id(3),
        vault_b: id(4),
        bump: 255,
    }
}

/// A ready-to-settle trade of asset 1 for asset 2 by caller 7, with the
/// given reserves and caller balances.
fn trade(reserve_in: u64, reserve_out: u64, user_in: u64, user_out: u64) -> Swap {
    Swap {
        pool: pool(),
        vault_in: vault(3, 1, 9, reserve_in),
        vault_out: vault(4, 2, 9, reserve_out),
        user_in: vault(5, 1, 7, user_in),
        user_out: vault(6, 2, 7, user_out),
        user: id(7),
    }
}

#[test]
fn compute_concrete_case() {
    assert_eq!(compute_amount_out(1000, 1000, 100), 90);
}

#[test]
fn compute_rounds_down_in_pool_favor() {
    // 1 * 1000 / (1000 + 1) = 0.999...
    assert_eq!(compute_amount_out(1000, 1000, 1), 0);
    // 3 * 7 / (5 + 3) = 2.625
    assert_eq!(compute_amount_out(5, 7, 3), 2);
}

#[test]
fn compute_large_trade_is_bounded() {
    // floor(10^12 * 2000 / (500 + 10^12)) = 1999: a huge trade cannot drain
    // the outbound reserve.
    let out = compute_amount_out(500, 2000, 1_000_000_000_000);
    assert_eq!(out, 1999);
    assert!(out < 2000);
}

#[test]
fn compute_never_drains_smallest_pool() {
    let out = compute_amount_out(1, 5, u64::MAX - 1);
    assert!(out < 5);
}

#[test]
fn quote_zero_amount_in_is_zero_out() {
    let p = pool();
    let r = quote(&p, &vault(3, 1, 9, 1000), &vault(4, 2, 9, 1000), 0);
    assert_eq!(r, Ok(0));
}

#[test]
fn quote_accepts_reversed_orientation() {
    let p = pool();
    // vault_in is the pool's vault_b, vault_out its vault_a.
    let r = quote(&p, &vault(4, 2, 9, 1000), &vault(3, 1, 9, 1000), 100);
    assert_eq!(r, Ok(90));
}

#[test]
fn quote_rejects_foreign_vaults() {
    let p = pool();
    for amount_in in [0u64, 1, 100, u64::MAX] {
        let r = quote(&p, &vault(5, 1, 9, 1000), &vault(4, 2, 9, 1000), amount_in);
        assert_eq!(r, Err(ErrorCode::InvalidVaults));
    }
}

#[test]
fn quote_rejects_same_vault_twice() {
    let p = pool();
    let v = vault(3, 1, 9, 1000);
    assert_eq!(quote(&p, &v, &v, 100), Err(ErrorCode::InvalidVaults));
}

#[test]
fn quote_rejects_empty_reserve() {
    let p = pool();
    for amount_in in [0u64, 1, u64::MAX] {
        let r = quote(&p, &vault(3, 1, 9, 0), &vault(4, 2, 9, 1000), amount_in);
        assert_eq!(r, Err(ErrorCode::EmptyPool));
        let r = quote(&p, &vault(3, 1, 9, 1000), &vault(4, 2, 9, 0), amount_in);
        assert_eq!(r, Err(ErrorCode::EmptyPool));
    }
}

#[test]
fn quote_rejects_overfull_inbound_reserve() {
    let p = pool();
    let r = quote(&p, &vault(3, 1, 9, u64::MAX), &vault(4, 2, 9, 1000), 1);
    assert_eq!(r, Err(ErrorCode::MathOverflow));
    let r = quote(&p, &vault(3, 1, 9, 2), &vault(4, 2, 9, 1000), u64::MAX - 1);
    assert_eq!(r, Err(ErrorCode::MathOverflow));
}

#[test]
fn quote_accepts_inbound_reserve_at_the_limit() {
    let p = pool();
    let r = quote(&p, &vault(3, 1, 9, u64::MAX - 1), &vault(4, 2, 9, 1000), 1);
    assert_eq!(r, Ok(0));
}

#[test]
fn swap_settles_both_legs() {
    let mut accounts = trade(1000, 1000, 500, 0);
    let r = swap(&mut accounts, 100);
    assert_eq!(r, Ok(90));
    assert_eq!(accounts.vault_in.balance, 1100);
    assert_eq!(accounts.vault_out.balance, 910);
    assert_eq!(accounts.user_in.balance, 400);
    assert_eq!(accounts.user_out.balance, 90);
}

#[test]
fn swap_keeps_the_reserve_product() {
    let mut accounts = trade(1000, 1000, 500, 0);
    let before = 1000u128 * 1000u128;
    swap(&mut accounts, 100).unwrap();
    let after = (accounts.vault_in.balance as u128) * (accounts.vault_out.balance as u128);
    assert!(after >= before);
}

#[test]
fn swap_round_trip_is_never_profitable() {
    let started_with = 100u64;
    let mut accounts = trade(1000, 1000, started_with, 0);
    let got = swap(&mut accounts, started_with).unwrap();
    assert_eq!(got, 90);
    // Swap the proceeds back: the outbound vault of the first trade is now
    // the inbound one.
    let mut back = Swap {
        pool: accounts.pool,
        vault_in: accounts.vault_out,
        vault_out: accounts.vault_in,
        user_in: accounts.user_out,
        user_out: accounts.user_in,
        user: accounts.user,
    };
    let ended_with = swap(&mut back, got).unwrap();
    assert_eq!(ended_with, 99);
    assert!(ended_with <= started_with);
}

#[test]
fn swap_rejects_unauthorized_caller() {
    let mut accounts = trade(1000, 1000, 500, 0);
    accounts.user = id(8);
    let r = swap(&mut accounts, 100);
    assert_eq!(r, Err(ErrorCode::TransferRejected));
    assert_eq!(accounts.vault_in.balance, 1000);
    assert_eq!(accounts.vault_out.balance, 1000);
    assert_eq!(accounts.user_in.balance, 500);
    assert_eq!(accounts.user_out.balance, 0);
}

#[test]
fn swap_rejects_insufficient_source_balance() {
    let mut accounts = trade(1000, 1000, 99, 0);
    let r = swap(&mut accounts, 100);
    assert_eq!(r, Err(ErrorCode::TransferRejected));
    assert_eq!(accounts.user_in.balance, 99);
}

#[test]
fn swap_rejects_mismatched_source_asset() {
    let mut accounts = trade(1000, 1000, 500, 0);
    accounts.user_in.asset = id(2);
    assert_eq!(swap(&mut accounts, 100), Err(ErrorCode::TransferRejected));
}

#[test]
fn swap_rejects_unbound_outbound_vault() {
    let mut accounts = trade(1000, 1000, 500, 0);
    accounts.vault_out.owner = id(8);
    assert_eq!(swap(&mut accounts, 100), Err(ErrorCode::TransferRejected));
}

#[test]
fn swap_rejects_overfull_destination() {
    let mut accounts = trade(1000, 1000, 500, u64::MAX - 10);
    assert_eq!(swap(&mut accounts, 100), Err(ErrorCode::TransferRejected));
}

#[test]
fn swap_validation_order_puts_vaults_first() {
    // Mismatched vaults win over empty reserves.
    let mut accounts = trade(0, 0, 500, 0);
    accounts.vault_in.id = id(5);
    assert_eq!(swap(&mut accounts, 100), Err(ErrorCode::InvalidVaults));
}

#[test]
fn swap_zero_amount_in_settles_nothing() {
    let mut accounts = trade(1000, 1000, 500, 0);
    let r = swap(&mut accounts, 0);
    assert_eq!(r, Ok(0));
    assert_eq!(accounts.vault_in.balance, 1000);
    assert_eq!(accounts.vault_out.balance, 1000);
    assert_eq!(accounts.user_in.balance, 500);
    assert_eq!(accounts.user_out.balance, 0);
}
