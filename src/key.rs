//! Account identities and 32-byte hashes, held as plain byte arrays.
use vstd::prelude::*;

verus! {

/// An account identity (the bytes of a public key) or a 32-byte commitment hash.
pub type Key = [u8; 32];

/// Byte-for-byte equality of two keys.
pub fn keys_equal(a: &Key, b: &Key) -> (r: bool)
    ensures
        r == (*a == *b),
{
    let mut i: usize = 0;
    while i < 32
        invariant
            i <= 32,
            forall|j: int| 0 <= j < i ==> a[j] == b[j],
        decreases 32 - i,
    {
        if a[i] != b[i] {
            return false;
        }
        i = i + 1;
    }
    assert(*a =~= *b);
    true
}

} // verus!
