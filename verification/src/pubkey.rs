//! Account addresses.
use vstd::prelude::*;

verus! {

/// Address of an account or a program.
pub type Pubkey = [u8; 32];

/// The all-zero address, which is also the owner of a closed account.
pub open spec fn zero_pubkey() -> Pubkey {
    [0u8; 32usize]
}

/// Whether two addresses hold the same bytes.
pub fn pubkey_eq(a: &Pubkey, b: &Pubkey) -> (same: bool)
    ensures
        same == (*a == *b),
{
    let mut i: usize = 0;
    while i < 32
        invariant
            i <= 32,
            forall|j: int| 0 <= j < i ==> a@[j] == b@[j],
        decreases 32 - i,
    {
        if a[i] != b[i] {
            return false;
        }
        i += 1;
    }
    assert(*a =~= *b);
    true
}

} // verus!
