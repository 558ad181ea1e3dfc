//! The reasons for which an operation on a rental is refused.

use vstd::prelude::*;

verus! {

/// Why an operation was refused. A refused operation changes nothing.
#[derive(Clone, Copy, Debug, PartialEq, Eq, Structural)]
pub enum ErrorCode {
    /// The operation starts from an active rental, and the rental is not active.
    NotActive,
    /// The operation starts from a disputed rental, and the rental is not disputed.
    NotDisputed,
    /// The caller is neither the renter nor the resource owner of the rental.
    Unauthorized,
}

impl ErrorCode {
    /// The sentence that tells a user of the refusal.
    pub open spec fn spec_message(self) -> Seq<char> {
        match self {
            ErrorCode::NotActive => "Rental is not active"@,
            ErrorCode::NotDisputed => "Rental is not disputed"@,
            ErrorCode::Unauthorized => "Unauthorized to perform this action"@,
        }
    }

    /// The sentence that tells a user of the refusal.
    pub fn message(&self) -> (text: &'static str)
        ensures
            text@ == self.spec_message(),
    {
        match self {
            ErrorCode::NotActive => "Rental is not active",
            ErrorCode::NotDisputed => "Rental is not disputed",
            ErrorCode::Unauthorized => "Unauthorized to perform this action",
        }
    }
}

} // verus!
