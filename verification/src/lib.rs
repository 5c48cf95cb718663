//! A custodied-reserve exchange engine: a constant-product pool over two
//! asset vaults, with validation, overflow-safe pricing, and an atomic
//! two-leg settlement guarded by a derived signing authority.

pub mod authority;
pub mod engine;
pub mod ident;
pub mod math;
pub mod state;
