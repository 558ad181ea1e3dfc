//! The resource record and the two rules by which its standing changes.

use vstd::prelude::*;
use vstd::utf8::encode_utf8;

use crate::identity::Pubkey;

verus! {

/// The record of a rentable resource and of how its rentals have gone.
#[derive(Clone, Debug, PartialEq, Eq)]
pub struct Resource {
    /// Who owns the resource.
    pub owner: Pubkey,
    /// The asset that names the resource.
    pub mint: Pubkey,
    /// What kind of resource this is, in free words.
    pub resource_type: String,
    /// What the resource offers, in free words.
    pub specs: String,
    /// The price of an hour.
    pub hourly_rate: u64,
    /// The standing of the resource. It may fall below zero.
    pub reputation: i32,
    /// How many rentals ended in the owner's favour.
    pub total_rentals: u32,
    /// When the record was created.
    pub created_at: i64,
    /// The nonce of the record's own identity.
    pub bump: u8,
}

impl Resource {
    /// The most bytes that `resource_type` may take in a stored record.
    pub const MAX_TYPE_LEN: usize = 50;

    /// The most bytes that `specs` may take in a stored record.
    pub const MAX_SPECS_LEN: usize = 200;

    /// The size of a stored record: an 8-byte tag, two identities, the two
    /// texts with a 4-byte length before each, the rate, the two counters,
    /// the time and the nonce.
    pub const LEN: usize = 8 + 32 + 32 + 4 + 50 + 4 + 200 + 8 + 4 + 4 + 8 + 1;

    /// Whether the two texts are short enough for a resource record: the
    /// type in at most 50 bytes, the description in at most 200, each
    /// counted in the bytes of its UTF-8 encoding.
    pub open spec fn texts_fit(resource_type: Seq<char>, specs: Seq<char>) -> bool {
        &&& encode_utf8(resource_type).len() <= Resource::MAX_TYPE_LEN
        &&& encode_utf8(specs).len() <= Resource::MAX_SPECS_LEN
    }

    /// Whether the two texts are short enough for a resource record.
    pub fn check_texts(resource_type: &str, specs: &str) -> (fit: bool)
        ensures
            fit == Resource::texts_fit(resource_type@, specs@),
    {
        resource_type.as_bytes().len() <= Resource::MAX_TYPE_LEN && specs.as_bytes().len()
            <= Resource::MAX_SPECS_LEN
    }

    /// Whether both texts of this record are short enough to be stored.
    pub open spec fn spec_fits(&self) -> bool {
        Resource::texts_fit(self.resource_type@, self.specs@)
    }

    /// Whether both texts of this record are short enough to be stored.
    #[verifier::when_used_as_spec(spec_fits)]
    pub fn fits(&self) -> (short: bool)
        ensures
            short == self.spec_fits(),
    {
        Resource::check_texts(self.resource_type.as_str(), self.specs.as_str())
    }

    /// Whether both counters have room for one more success.
    pub open spec fn spec_can_record_success(&self) -> bool {
        self.reputation < i32::MAX && self.total_rentals < u32::MAX
    }

    /// Whether both counters have room for one more success.
    #[verifier::when_used_as_spec(spec_can_record_success)]
    pub fn can_record_success(&self) -> (room: bool)
        ensures
            room == self.spec_can_record_success(),
    {
        self.reputation < i32::MAX && self.total_rentals < u32::MAX
    }

    /// This record after a rental that ended in the owner's favour: one more
    /// point of reputation, one more rental.
    pub open spec fn after_success(self) -> Resource {
        Resource {
            reputation: (self.reputation + 1) as i32,
            total_rentals: (self.total_rentals + 1) as u32,
            ..self
        }
    }

    /// This record after a dispute that the renter won: one point of
    /// reputation less, down to the least value the counter can hold and no
    /// further. The count of rentals stays.
    pub open spec fn after_penalty(self) -> Resource {
        Resource {
            reputation: if self.reputation == i32::MIN {
                i32::MIN
            } else {
                (self.reputation - 1) as i32
            },
            ..self
        }
    }

    /// Records a rental that ended in the owner's favour.
    pub fn apply_success(&mut self)
        requires
            old(self).can_record_success(),
        ensures
            *final(self) == old(self).after_success(),
    {
        self.reputation = self.reputation + 1;
        self.total_rentals = self.total_rentals + 1;
    }

    /// Records a dispute that the renter won.
    pub fn apply_penalty(&mut self)
        ensures
            *final(self) == old(self).after_penalty(),
    {
        if self.reputation > i32::MIN {
            self.reputation = self.reputation - 1;
        }
    }
}

} // verus!
