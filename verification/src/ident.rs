//! Identities: 32-byte addresses for pools, vaults, asset types, and
//! authorities.

use vstd::prelude::*;

verus! {

/// A 32-byte identity. Pools, vaults, asset types, callers and derived
/// authorities are all named by values of this type; the engine only ever
/// compares identities for equality.
#[derive(Clone, Copy, Debug)]
pub struct Ident {
    pub bytes: [u8; 32],
}

impl View for Ident {
    type V = Seq<u8>;

    open spec fn view(&self) -> Seq<u8> {
        self.bytes@
    }
}

impl Ident {
    /// Whether two identities name the same thing.
    pub fn same(&self, other: &Ident) -> (r: bool)
        ensures
            r == (self@ == other@),
    {
        let mut i: usize = 0;
        while i < 32
            invariant
                i <= 32,
                forall|k: int| 0 <= k < i ==> self.bytes@[k] == other.bytes@[k],
            decreases 32 - i,
        {
            if self.bytes[i] != other.bytes[i] {
                return false;
            }
            i += 1;
        }
        assert(self@ =~= other@);
        true
    }
}

} // verus!
