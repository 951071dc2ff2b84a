//! Ledger addresses as plain 32-byte values.

use vstd::prelude::*;

verus! {

broadcast use vstd::array::group_array_axioms;

/// A ledger address: the 32 raw bytes of an account key.
///
/// Every account the orchestrator touches — the mint, the holding account,
/// the authority, the rent sysvar and the three program ids — is referenced
/// by such an address. The orchestrator never interprets the bytes; it only
/// compares addresses and hands them to the delegated programs.
#[derive(Clone, Copy, Debug, PartialEq, Eq)]
pub struct Address(pub [u8; 32]);

impl View for Address {
    type V = Seq<u8>;

    open spec fn view(&self) -> Seq<u8> {
        self.0@
    }
}

impl Address {
    /// Byte-for-byte equality of two addresses.
    pub fn eq_addr(&self, other: &Address) -> (r: bool)
        ensures
            r == (*self == *other),
            r == (self@ == other@),
    {
        let mut i: usize = 0;
        while i < 32
            invariant
                i <= 32,
                forall|j: int| 0 <= j < i ==> self.0@[j] == other.0@[j],
            decreases 32 - i,
        {
            if self.0[i] != other.0[i] {
                return false;
            }
            i += 1;
        }
        proof {
            assert(self.0@ =~= other.0@);
            assert(self.0 =~= other.0);
        }
        true
    }
}

} // verus!
