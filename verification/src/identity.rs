//! Identities: the 32-byte keys that name parties, records and accounts.

use vstd::prelude::*;

verus! {

/// The identity of this program: the namespace under which every authority
/// of a holding account is derived.
pub const ID: [u8; 32] = [
    119, 176, 66, 105, 167, 103, 169, 108, 200, 92, 168, 228, 29, 189, 80, 193,
    1, 59, 116, 152, 251, 173, 37, 187, 115, 39, 220, 7, 255, 112, 195, 143,
];

/// A 32-byte identity of a party, a record or an account.
#[derive(Clone, Copy, Debug)]
pub struct Pubkey {
    pub bytes: [u8; 32],
}

impl View for Pubkey {
    type V = Seq<u8>;

    open spec fn view(&self) -> Seq<u8> {
        self.bytes@
    }
}

impl PartialEq for Pubkey {
    /// Two identities are the same when all 32 bytes agree.
    fn eq(&self, other: &Pubkey) -> (same: bool) {
        let mut i: usize = 0;
        while i < 32
            invariant
                i <= 32,
                forall|j: int| 0 <= j < i ==> self.bytes[j] == other.bytes[j],
            decreases 32 - i,
        {
            if self.bytes[i] != other.bytes[i] {
                return false;
            }
            i += 1;
        }
        assert(self.bytes =~= other.bytes);
        true
    }
}

impl Eq for Pubkey {}

impl vstd::std_specs::cmp::PartialEqSpecImpl for Pubkey {
    open spec fn obeys_eq_spec() -> bool {
        true
    }

    open spec fn eq_spec(&self, other: &Pubkey) -> bool {
        *self == *other
    }
}

impl Pubkey {
    /// The identity with the given bytes.
    pub fn new_from_array(bytes: [u8; 32]) -> (key: Pubkey)
        ensures
            key.bytes == bytes,
    {
        Pubkey { bytes }
    }

    /// The 32 bytes of this identity.
    pub fn to_bytes(&self) -> (bytes: [u8; 32])
        ensures
            bytes == self.bytes,
    {
        self.bytes
    }
}

/// The identity of this program.
pub fn id() -> (key: Pubkey)
    ensures
        key.bytes == ID,
{
    Pubkey { bytes: ID }
}

} // verus!
