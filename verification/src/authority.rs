//! The derived signing authority: a deterministic, unforgeable capability
//! computed from a pool's own identity and a fixed domain-separation salt.
//! Only this authority may authorize outbound transfers from the pool's
//! reserve vaults.

use crate::ident::Ident;
use solana_program::pubkey::Pubkey;
use vstd::prelude::*;

verus! {

/// What `Pubkey::try_find_program_address` returns for the seed pair
/// `[salt, pool_seed]` under the program `program`: the derived authority's
/// identity together with its bump byte, or nothing when no viable
/// derivation exists for those seeds.
pub uninterp spec fn pda_of(program: Seq<u8>, salt: Seq<char>, pool_seed: Seq<u8>) -> Option<
    (Seq<u8>, u8),
>;

/// Relies on solana_program's `Pubkey::try_find_program_address`: the
/// returned address and bump byte are a deterministic function of the seeds
/// and the program id alone, and `None` comes back (rather than a panic)
/// when the seeds admit no derivation.
#[verifier::external_body]
fn derive_address(program_id: &Ident, salt: &str, pool_id: &Ident) -> (r: Option<(Ident, u8)>)
    ensures
        pda_of(program_id@, salt@, pool_id@) == (match r {
            Some(p) => Some((p.0@, p.1)),
            None => None::<(Seq<u8>, u8)>,
        }),
{
    let program = Pubkey::new_from_array(program_id.bytes);
    let derived = Pubkey::try_find_program_address(
        &[salt.as_bytes(), &pool_id.bytes],
        &program,
    );
    match derived {
        Some((key, bump)) => Some((Ident { bytes: key.to_bytes() }, bump)),
        None => None,
    }
}

/// The fixed domain-separation salt under which pool authorities are
/// derived.
pub open spec fn authority_salt() -> Seq<char> {
    "authority"@
}

/// The derived signing authority for the pool named `pool_id`, hosted by the
/// program named `program_id`, together with its bump byte; `None` when no
/// viable derivation exists.
pub fn pool_authority(program_id: &Ident, pool_id: &Ident) -> (r: Option<(Ident, u8)>)
    ensures
        pda_of(program_id@, authority_salt(), pool_id@) == (match r {
            Some(p) => Some((p.0@, p.1)),
            None => None::<(Seq<u8>, u8)>,
        }),
{
    derive_address(program_id, "authority", pool_id)
}

} // verus!
