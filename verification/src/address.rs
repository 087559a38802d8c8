use vstd::prelude::*;

verus! {

/// An account or contract identifier: twenty bytes, as it appears on the
/// wire. Used both for parties and for asset identifiers; the all-zero
/// value, when used as an asset identifier, is the sentinel that means
/// "the native asset" rather than a token contract.
#[derive(Clone, Copy, Debug)]
pub struct Address {
    pub bytes: [u8; 20],
}

impl Address {
    /// The sentinel meaning "native asset": every byte is zero.
    pub open spec fn is_native_spec(self) -> bool {
        forall|i: int| 0 <= i < 20 ==> self.bytes[i] == 0u8
    }

    pub fn new(bytes: [u8; 20]) -> (r: Address)
        ensures
            r.bytes == bytes,
    {
        Address { bytes }
    }

    pub fn zero() -> (r: Address)
        ensures
            r.is_native_spec(),
    {
        let bytes = [0u8; 20];
        let r = Address { bytes };
        assert(forall|i: int| 0 <= i < 20 ==> r.bytes[i] == 0u8);
        r
    }

    /// Whether this value, read as an asset identifier, names the native
    /// asset.
    pub fn is_native(&self) -> (r: bool)
        ensures
            r == self.is_native_spec(),
    {
        let mut i: usize = 0;
        while i < 20
            invariant
                i <= 20,
                forall|j: int| 0 <= j < i ==> self.bytes[j] == 0u8,
            decreases 20 - i,
        {
            if self.bytes[i] != 0 {
                return false;
            }
            i = i + 1;
        }
        true
    }
}

} // verus!
