//! The rental agreement record and the states it moves through.

use vstd::prelude::*;

use crate::error::ErrorCode;
use crate::identity::Pubkey;

verus! {

/// Where a rental stands in its life.
///
/// A rental starts `Active`. From there it is either completed, or disputed
/// and then resolved. `Completed` and `Resolved` are final.
#[derive(Clone, Copy, Debug, PartialEq, Eq, Structural)]
pub enum RentalStatus {
    Active,
    Completed,
    Disputed,
    Resolved,
}

impl RentalStatus {
    /// The three steps a rental can take: `Active` to `Completed`, `Active`
    /// to `Disputed`, `Disputed` to `Resolved`.
    pub open spec fn may_become(self, next: RentalStatus) -> bool {
        ||| self is Active && next is Completed
        ||| self is Active && next is Disputed
        ||| self is Disputed && next is Resolved
    }

    /// Whether no step leads on from this status.
    pub open spec fn spec_is_terminal(self) -> bool {
        self is Completed || self is Resolved
    }

    /// Whether no step leads on from this status.
    #[verifier::when_used_as_spec(spec_is_terminal)]
    pub fn is_terminal(self) -> (terminal: bool)
        ensures
            terminal == self.spec_is_terminal(),
    {
        match self {
            RentalStatus::Completed | RentalStatus::Resolved => true,
            RentalStatus::Active | RentalStatus::Disputed => false,
        }
    }

    /// The byte that stands for this status in a stored record.
    pub open spec fn spec_discriminant(self) -> u8 {
        match self {
            RentalStatus::Active => 0,
            RentalStatus::Completed => 1,
            RentalStatus::Disputed => 2,
            RentalStatus::Resolved => 3,
        }
    }

    /// The byte that stands for this status in a stored record.
    #[verifier::when_used_as_spec(spec_discriminant)]
    pub fn discriminant(self) -> (byte: u8)
        ensures
            byte == self.spec_discriminant(),
    {
        match self {
            RentalStatus::Active => 0,
            RentalStatus::Completed => 1,
            RentalStatus::Disputed => 2,
            RentalStatus::Resolved => 3,
        }
    }

    /// The status that a byte of a stored record stands for, if any.
    pub fn from_discriminant(byte: u8) -> (status: Option<RentalStatus>)
        ensures
            byte <= 3 <==> status is Some,
            status matches Some(s) ==> s.spec_discriminant() == byte,
    {
        match byte {
            0 => Some(RentalStatus::Active),
            1 => Some(RentalStatus::Completed),
            2 => Some(RentalStatus::Disputed),
            3 => Some(RentalStatus::Resolved),
            _ => None,
        }
    }
}

/// The record of one rental: who rents what from whom, what is held in
/// custody for it, and where it stands.
#[derive(Clone, Copy, Debug, PartialEq, Eq)]
pub struct RentalAgreement {
    /// Who pays for the rental.
    pub renter: Pubkey,
    /// Who is paid once the rental is complete.
    pub resource_owner: Pubkey,
    /// The asset that names the rented resource.
    pub resource_mint: Pubkey,
    /// What the holding account holds for this rental, fixed at creation.
    pub escrow_amount: u64,
    /// When the rental was created.
    pub start_time: i64,
    /// How long the rental is meant to last. Recorded, and never enforced.
    pub duration: i64,
    pub status: RentalStatus,
    /// The nonce of the authority over the holding account.
    pub bump: u8,
}

impl RentalAgreement {
    /// The size of a stored record: an 8-byte tag, three identities, the
    /// amount, the two times, the status and the nonce.
    pub const LEN: usize = 8 + 32 + 32 + 32 + 8 + 8 + 8 + 1 + 1;

    /// Whether this is the record of a rental that was created: a rental
    /// holds an amount above zero in custody, from its creation on.
    pub open spec fn well_formed(self) -> bool {
        self.escrow_amount > 0
    }

    /// Whether `who` is one of the two parties of this rental.
    pub open spec fn spec_is_party(&self, who: &Pubkey) -> bool {
        *who == self.renter || *who == self.resource_owner
    }

    /// Whether `who` is one of the two parties of this rental.
    #[verifier::when_used_as_spec(spec_is_party)]
    pub fn is_party(&self, who: &Pubkey) -> (party: bool)
        ensures
            party == self.spec_is_party(who),
    {
        *who == self.renter || *who == self.resource_owner
    }

    /// Why `caller` may not complete or dispute this rental, if so: the
    /// rental is not active, or else the caller is no party to it.
    pub open spec fn refusal_when_active(self, caller: Pubkey) -> Option<ErrorCode> {
        if !(self.status is Active) {
            Some(ErrorCode::NotActive)
        } else if !self.spec_is_party(&caller) {
            Some(ErrorCode::Unauthorized)
        } else {
            None
        }
    }

    /// Why `caller` may not resolve the dispute over this rental, if so: the
    /// rental is not disputed, or else the caller is no party to it.
    pub open spec fn refusal_when_disputed(self, caller: Pubkey) -> Option<ErrorCode> {
        if !(self.status is Disputed) {
            Some(ErrorCode::NotDisputed)
        } else if !self.spec_is_party(&caller) {
            Some(ErrorCode::Unauthorized)
        } else {
            None
        }
    }

    /// This record with its status replaced, and nothing else.
    pub open spec fn with_status(self, status: RentalStatus) -> RentalAgreement {
        RentalAgreement { status, ..self }
    }

    /// Admits `caller` to an operation that starts from an active rental, or
    /// says why not. The status is looked at first.
    pub fn require_active(&self, caller: &Pubkey) -> (admitted: Result<(), ErrorCode>)
        ensures
            admitted is Ok <==> self.refusal_when_active(*caller) is None,
            admitted matches Err(e) ==> self.refusal_when_active(*caller) == Some(e),
    {
        if self.status != RentalStatus::Active {
            Err(ErrorCode::NotActive)
        } else if !self.is_party(caller) {
            Err(ErrorCode::Unauthorized)
        } else {
            Ok(())
        }
    }

    /// Admits `caller` to an operation that starts from a disputed rental,
    /// or says why not. The status is looked at first.
    pub fn require_disputed(&self, caller: &Pubkey) -> (admitted: Result<(), ErrorCode>)
        ensures
            admitted is Ok <==> self.refusal_when_disputed(*caller) is None,
            admitted matches Err(e) ==> self.refusal_when_disputed(*caller) == Some(e),
    {
        if self.status != RentalStatus::Disputed {
            Err(ErrorCode::NotDisputed)
        } else if !self.is_party(caller) {
            Err(ErrorCode::Unauthorized)
        } else {
            Ok(())
        }
    }
}

} // verus!
