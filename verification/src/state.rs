//! The persisted records of the exchange: pools, custody vaults, and the
//! error taxonomy.

use crate::ident::Ident;
use vstd::prelude::*;

verus! {

/// Why a pool operation was refused. Every failure aborts before any
/// mutation; none is retryable without caller-side correction.
#[derive(Clone, Copy, Debug, PartialEq, Eq, Structural)]
pub enum ErrorCode {
    /// The vault pair handed to `swap` is not the pool's vault pair.
    InvalidVaults,
    /// A reserve is zero, so the price is undefined.
    EmptyPool,
    /// The inbound reserve cannot absorb `amount_in` within 64 bits.
    MathOverflow,
    /// A settlement leg was refused: bad authorization, a mismatched asset
    /// type, insufficient balance, or an overfull destination.
    TransferRejected,
    /// A record handed to `initialize_pool` is not bound to the freshly
    /// derived authority, or no authority could be derived.
    AllocationOrBindingError,
}

/// The summary `ErrorCode::message` reports for each variant.
pub open spec fn message_spec(code: ErrorCode) -> Seq<char> {
    match code {
        ErrorCode::InvalidVaults => "Vault accounts do not match the pool configuration"@,
        ErrorCode::EmptyPool => "Pool has no liquidity"@,
        ErrorCode::MathOverflow => "Math overflow"@,
        ErrorCode::TransferRejected => "Transfer rejected by a settlement leg"@,
        ErrorCode::AllocationOrBindingError => "Vault is not bound to the pool authority"@,
    }
}

impl ErrorCode {
    /// A human-readable summary for the host's logging sink.
    pub fn message(&self) -> (r: &'static str)
        ensures
            r@ == message_spec(*self),
    {
        match self {
            ErrorCode::InvalidVaults => "Vault accounts do not match the pool configuration",
            ErrorCode::EmptyPool => "Pool has no liquidity",
            ErrorCode::MathOverflow => "Math overflow",
            ErrorCode::TransferRejected => "Transfer rejected by a settlement leg",
            ErrorCode::AllocationOrBindingError => "Vault is not bound to the pool authority",
        }
    }
}

/// A custody record holding the balance of one asset type. The pool's two
/// reserve vaults are exclusively owned by the pool's derived authority; the
/// caller's own records have the same shape, owned by the caller.
#[derive(Clone, Copy, Debug)]
pub struct Vault {
    /// The record's own identity.
    pub id: Ident,
    /// The asset type whose units the record custodies.
    pub asset: Ident,
    /// The identity that must authorize outbound transfers.
    pub owner: Ident,
    /// The balance, a whole number of units.
    pub balance: u64,
}

/// A two-asset market: two vaults, one per asset type, and the derived
/// authority that owns them. Immutable after creation.
#[derive(Clone, Copy, Debug)]
pub struct Pool {
    /// The derived signing authority that owns both vaults.
    pub authority: Ident,
    /// The first asset type.
    pub mint_a: Ident,
    /// The second asset type.
    pub mint_b: Ident,
    /// The vault custodying `mint_a`.
    pub vault_a: Ident,
    /// The vault custodying `mint_b`.
    pub vault_b: Ident,
    /// The bump byte of the authority derivation.
    pub bump: u8,
}

/// The records handed to `initialize_pool`.
#[derive(Clone, Copy, Debug)]
pub struct InitializePool {
    /// The hosting program's identity: the derivation domain.
    pub program_id: Ident,
    /// The new pool's own identity, used as a derivation seed.
    pub pool_id: Ident,
    /// The authority the caller claims owns the vaults.
    pub pool_authority: Ident,
    /// The first asset type.
    pub mint_a: Ident,
    /// The second asset type.
    pub mint_b: Ident,
    /// The empty vault to custody `mint_a`.
    pub vault_a: Vault,
    /// The empty vault to custody `mint_b`.
    pub vault_b: Vault,
}

/// The records handed to `swap`.
#[derive(Clone, Copy, Debug)]
pub struct Swap {
    /// The market being traded against.
    pub pool: Pool,
    /// The pool vault that receives `amount_in`.
    pub vault_in: Vault,
    /// The pool vault that pays `amount_out`.
    pub vault_out: Vault,
    /// The caller's record that `amount_in` is pulled from.
    pub user_in: Vault,
    /// The caller's record that `amount_out` is pushed to.
    pub user_out: Vault,
    /// The caller, who authorizes the inbound leg.
    pub user: Ident,
}

} // verus!
