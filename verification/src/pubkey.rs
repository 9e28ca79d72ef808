//! Account addresses as plain 32-byte values.

use vstd::prelude::*;

verus! {

/// The address of an account: 32 opaque bytes.
#[derive(Clone, Copy, Debug, PartialEq, Eq, Hash)]
pub struct Pubkey {
    pub bytes: [u8; 32],
}

impl View for Pubkey {
    type V = Seq<u8>;

    open spec fn view(&self) -> Seq<u8> {
        self.bytes@
    }
}

impl Default for Pubkey {
    /// The address of all zero bytes.
    fn default() -> (key: Pubkey)
        ensures
            key.is_zero(),
    {
        let key = Pubkey { bytes: [0u8; 32] };
        assert(key@ =~= Seq::new(32, |i: int| 0u8));
        key
    }
}

impl Pubkey {
    /// Every byte of the address is zero.
    pub open spec fn is_zero(&self) -> bool {
        self@ == Seq::new(32, |i: int| 0u8)
    }


    /// An address from its 32 bytes.
    pub fn new(bytes: [u8; 32]) -> (key: Pubkey)
        ensures
            key.bytes == bytes,
    {
        Pubkey { bytes }
    }

    /// Whether two addresses hold the same bytes.
    pub fn same(&self, other: &Pubkey) -> (r: bool)
        ensures
            r == (self@ == other@),
            r == (*self == *other),
    {
        let mut i: usize = 0;
        while i < 32
            invariant
                i <= 32,
                forall|j: int| 0 <= j < i ==> self.bytes@[j] == other.bytes@[j],
            decreases 32 - i,
        {
            if self.bytes[i] != other.bytes[i] {
                return false;
            }
            i += 1;
        }
        assert(self@ =~= other@);
        assert(self.bytes == other.bytes);
        true
    }
}

} // verus!
