//! Caller and owner identities.

use vstd::prelude::*;

verus! {

/// The number of bytes in an identity key.
pub const KEY_BYTES: usize = 32;

/// The identity of an account, as asserted by the host runtime's credential
/// check. The host hands a handler the caller's key; an entry stores its
/// owner's key. Two identities are the same exactly when their bytes are.
#[derive(Clone, Copy, Debug)]
pub struct Pubkey {
    pub bytes: [u8; 32],
}

impl View for Pubkey {
    type V = Seq<u8>;

    open spec fn view(&self) -> Seq<u8> {
        self.bytes@
    }
}

/// Whether two identities are the same key, byte for byte.
pub fn pubkey_eq(a: &Pubkey, b: &Pubkey) -> (r: bool)
    ensures
        r == (a@ == b@),
{
    let mut i: usize = 0;
    while i < KEY_BYTES
        invariant
            0 <= i <= KEY_BYTES,
            forall|j: int| 0 <= j < i ==> a@[j] == b@[j],
        decreases KEY_BYTES - i,
    {
        if a.bytes[i] != b.bytes[i] {
            assert(a@[i as int] != b@[i as int]);
            return false;
        }
        i += 1;
    }
    assert(a@ =~= b@);
    true
}

} // verus!
