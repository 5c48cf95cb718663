//! The swap engine: validates a trade against a pool, prices it with the
//! constant-product formula, and settles it as two independently authorized
//! transfer legs, all-or-nothing.

use crate::authority::{authority_salt, pda_of, pool_authority};
use crate::ident::Ident;
use crate::math::{amount_out_spec, compute_amount_out, lemma_constant_product, lemma_quote_bounds};
use crate::state::{ErrorCode, InitializePool, Pool, Swap, Vault};
use vstd::prelude::*;

verus! {

/// Whether the vault pair handed to `swap` is the pool's vault pair, in
/// either orientation.
pub open spec fn vaults_match(pool: Pool, vault_in: Vault, vault_out: Vault) -> bool {
    ||| (vault_in.id@ == pool.vault_a@ && vault_out.id@ == pool.vault_b@)
    ||| (vault_in.id@ == pool.vault_b@ && vault_out.id@ == pool.vault_a@)
}

/// Whether the transfer service would settle one leg: `authority` must own
/// the source record, the asset types must agree, the source must hold the
/// amount, and the destination must be able to absorb it within 64 bits.
pub open spec fn leg_ok(from: Vault, to: Vault, authority: Ident, amount: int) -> bool {
    &&& from.owner@ == authority@
    &&& from.asset@ == to.asset@
    &&& amount <= from.balance
    &&& to.balance + amount <= u64::MAX
}

/// What `quote` returns: the first failed validation, or the priced output.
/// Validated in order, first failure wins.
pub open spec fn quote_spec(pool: Pool, vault_in: Vault, vault_out: Vault, amount_in: u64) -> Result<
    u64,
    ErrorCode,
> {
    if !vaults_match(pool, vault_in, vault_out) {
        Err(ErrorCode::InvalidVaults)
    } else if vault_in.balance == 0 || vault_out.balance == 0 {
        Err(ErrorCode::EmptyPool)
    } else if vault_in.balance + amount_in > u64::MAX {
        Err(ErrorCode::MathOverflow)
    } else {
        Ok(amount_out_spec(vault_in.balance as int, vault_out.balance as int, amount_in as int) as u64)
    }
}

/// What `swap` returns: a quote failure, a settlement leg the transfer
/// service would refuse, or the paid output.
pub open spec fn swap_spec(accounts: Swap, amount_in: u64) -> Result<u64, ErrorCode> {
    match quote_spec(accounts.pool, accounts.vault_in, accounts.vault_out, amount_in) {
        Err(code) => Err(code),
        Ok(amount_out) => if !leg_ok(accounts.user_in, accounts.vault_in, accounts.user, amount_in as int)
            || !leg_ok(accounts.vault_out, accounts.user_out, accounts.pool.authority, amount_out as int) {
            Err(ErrorCode::TransferRejected)
        } else {
            Ok(amount_out)
        },
    }
}

/// The vault with its balance replaced.
pub open spec fn with_balance(vault: Vault, balance: int) -> Vault {
    Vault { balance: balance as u64, ..vault }
}

/// Whether one leg would settle.
fn check_leg(from: &Vault, to: &Vault, authority: &Ident, amount: u64) -> (r: bool)
    ensures
        r == leg_ok(*from, *to, *authority, amount as int),
{
    from.owner.same(authority) && from.asset.same(&to.asset) && amount <= from.balance && amount
        <= u64::MAX - to.balance
}

/// Validates a trade request and prices it against the current reserves,
/// without settling it: the decision half of `swap`, for a host that
/// performs the two transfer legs itself.
pub fn quote(pool: &Pool, vault_in: &Vault, vault_out: &Vault, amount_in: u64) -> (r: Result<
    u64,
    ErrorCode,
>)
    ensures
        r == quote_spec(*pool, *vault_in, *vault_out, amount_in),
        !vaults_match(*pool, *vault_in, *vault_out) <==> r == Err::<u64, ErrorCode>(
            ErrorCode::InvalidVaults,
        ),
        r matches Ok(amount_out) ==> amount_out == amount_out_spec(
            vault_in.balance as int,
            vault_out.balance as int,
            amount_in as int,
        ) && amount_out < vault_out.balance,
        r matches Ok(amount_out) ==> (vault_in.balance + amount_in) * (vault_out.balance
            - amount_out) >= vault_in.balance * vault_out.balance,
{
    let matches_ab = vault_in.id.same(&pool.vault_a) && vault_out.id.same(&pool.vault_b);
    let matches_ba = vault_in.id.same(&pool.vault_b) && vault_out.id.same(&pool.vault_a);
    if !(matches_ab || matches_ba) {
        return Err(ErrorCode::InvalidVaults);
    }
    let reserve_in = vault_in.balance;
    let reserve_out = vault_out.balance;
    if reserve_in == 0 || reserve_out == 0 {
        return Err(ErrorCode::EmptyPool);
    }
    if amount_in > u64::MAX - reserve_in {
        return Err(ErrorCode::MathOverflow);
    }
    let amount_out = compute_amount_out(reserve_in, reserve_out, amount_in);
    proof {
        lemma_constant_product(reserve_in as int, reserve_out as int, amount_in as int);
    }
    Ok(amount_out)
}

/// Validates, prices, and settles a trade: pulls `amount_in` from the
/// caller's record into the inbound vault (caller-authorized), then pushes
/// the priced `amount_out` from the outbound vault to the caller's record
/// (authorized by the pool's derived authority). Both legs settle, or
/// nothing changes: every failure aborts before any mutation.
pub fn swap(accounts: &mut Swap, amount_in: u64) -> (r: Result<u64, ErrorCode>)
    ensures
        r == swap_spec(*old(accounts), amount_in),
        r is Err ==> *final(accounts) == *old(accounts),
        r matches Ok(amount_out) ==> *final(accounts) == (Swap {
            vault_in: with_balance(
                old(accounts).vault_in,
                old(accounts).vault_in.balance + amount_in,
            ),
            vault_out: with_balance(
                old(accounts).vault_out,
                old(accounts).vault_out.balance - amount_out,
            ),
            user_in: with_balance(old(accounts).user_in, old(accounts).user_in.balance - amount_in),
            user_out: with_balance(
                old(accounts).user_out,
                old(accounts).user_out.balance + amount_out,
            ),
            ..*old(accounts)
        }),
        !vaults_match(old(accounts).pool, old(accounts).vault_in, old(accounts).vault_out) <==> r
            == Err::<u64, ErrorCode>(ErrorCode::InvalidVaults),
        vaults_match(old(accounts).pool, old(accounts).vault_in, old(accounts).vault_out) && (old(
            accounts,
        ).vault_in.balance == 0 || old(accounts).vault_out.balance == 0) <==> r == Err::<
            u64,
            ErrorCode,
        >(ErrorCode::EmptyPool),
        r matches Ok(amount_out) ==> amount_out == amount_out_spec(
            old(accounts).vault_in.balance as int,
            old(accounts).vault_out.balance as int,
            amount_in as int,
        ) && amount_out < old(accounts).vault_out.balance,
        r matches Ok(amount_out) ==> (old(accounts).vault_in.balance + amount_in) * (old(
            accounts,
        ).vault_out.balance - amount_out) >= old(accounts).vault_in.balance * old(
            accounts,
        ).vault_out.balance,
{
    let amount_out = match quote(&accounts.pool, &accounts.vault_in, &accounts.vault_out, amount_in) {
        Ok(amount_out) => amount_out,
        Err(code) => {
            return Err(code);
        },
    };
    if !check_leg(&accounts.user_in, &accounts.vault_in, &accounts.user, amount_in) {
        return Err(ErrorCode::TransferRejected);
    }
    if !check_leg(&accounts.vault_out, &accounts.user_out, &accounts.pool.authority, amount_out) {
        return Err(ErrorCode::TransferRejected);
    }
    accounts.user_in.balance = accounts.user_in.balance - amount_in;
    accounts.vault_in.balance = accounts.vault_in.balance + amount_in;
    accounts.vault_out.balance = accounts.vault_out.balance - amount_out;
    accounts.user_out.balance = accounts.user_out.balance + amount_out;
    Ok(amount_out)
}

/// Whether a vault is bound to the pool being created: owned by the derived
/// authority and custodying the expected asset type.
pub open spec fn vault_bound(vault: Vault, authority: Ident, asset: Ident) -> bool {
    vault.owner@ == authority@ && vault.asset@ == asset@
}

/// What `initialize_pool` returns: the persisted pool, or a refusal when the
/// claimed authority is not the freshly derived one or a vault is not bound
/// to it.
pub open spec fn initialize_pool_spec(accounts: InitializePool) -> Result<Pool, ErrorCode> {
    match pda_of(accounts.program_id@, authority_salt(), accounts.pool_id@) {
        None => Err(ErrorCode::AllocationOrBindingError),
        Some(derived) => if accounts.pool_authority@ != derived.0 {
            Err(ErrorCode::AllocationOrBindingError)
        } else if !vault_bound(accounts.vault_a, accounts.pool_authority, accounts.mint_a)
            || !vault_bound(accounts.vault_b, accounts.pool_authority, accounts.mint_b) {
            Err(ErrorCode::AllocationOrBindingError)
        } else {
            Ok(
                Pool {
                    authority: accounts.pool_authority,
                    mint_a: accounts.mint_a,
                    mint_b: accounts.mint_b,
                    vault_a: accounts.vault_a.id,
                    vault_b: accounts.vault_b.id,
                    bump: derived.1,
                },
            )
        },
    }
}

/// Creates a pool over two distinct asset types and two newly created, empty
/// vaults. Verifies the binding before persisting anything: the caller's
/// claimed authority must equal the authority freshly derived from the
/// pool's identity, and each vault must be owned by it and custody the
/// matching asset type.
pub fn initialize_pool(accounts: &InitializePool) -> (r: Result<Pool, ErrorCode>)
    requires
        accounts.mint_a@ != accounts.mint_b@,
        accounts.vault_a.balance == 0,
        accounts.vault_b.balance == 0,
    ensures
        r == initialize_pool_spec(*accounts),
        r matches Ok(pool) ==> pda_of(accounts.program_id@, authority_salt(), accounts.pool_id@)
            == Some((pool.authority@, pool.bump)),
        r matches Ok(pool) ==> accounts.vault_a.owner@ == pool.authority@
            && accounts.vault_b.owner@ == pool.authority@ && pool.vault_a@ == accounts.vault_a.id@
            && pool.vault_b@ == accounts.vault_b.id@ && pool.mint_a@ == accounts.mint_a@
            && pool.mint_b@ == accounts.mint_b@,
{
    let derived = match pool_authority(&accounts.program_id, &accounts.pool_id) {
        Some(derived) => derived,
        None => {
            return Err(ErrorCode::AllocationOrBindingError);
        },
    };
    if !accounts.pool_authority.same(&derived.0) {
        return Err(ErrorCode::AllocationOrBindingError);
    }
    let bound_a = accounts.vault_a.owner.same(&accounts.pool_authority)
        && accounts.vault_a.asset.same(&accounts.mint_a);
    let bound_b = accounts.vault_b.owner.same(&accounts.pool_authority)
        && accounts.vault_b.asset.same(&accounts.mint_b);
    if !(bound_a && bound_b) {
        return Err(ErrorCode::AllocationOrBindingError);
    }
    Ok(
        Pool {
            authority: accounts.pool_authority,
            mint_a: accounts.mint_a,
            mint_b: accounts.mint_b,
            vault_a: accounts.vault_a.id,
            vault_b: accounts.vault_b.id,
            bump: derived.1,
        },
    )
}

} // verus!
