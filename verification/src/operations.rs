//! The five operations: what each works on, what it decides, and the order
//! it hands back.
//!
//! An operation either goes through as a whole or changes nothing. Where it
//! moves funds it hands back one transfer order; the new state counts only
//! once that order has been carried out.

use vstd::prelude::*;

use crate::authority::{escrow_authority, find_escrow_authority, DerivedAuthority};
use crate::error::ErrorCode;
use crate::identity::Pubkey;
use crate::rental::{RentalAgreement, RentalStatus};
use crate::resource::Resource;
use crate::transfer::Transfer;

verus! {

/// What the creation of a rental works on.
#[derive(Clone, Copy, Debug, PartialEq, Eq)]
pub struct CreateRental {
    /// The identity of the rental record.
    pub rental_key: Pubkey,
    /// The record to fill.
    pub rental: RentalAgreement,
    /// Who creates the rental and pays into custody.
    pub renter: Pubkey,
    /// Who will be paid. Taken as given.
    pub resource_owner: Pubkey,
    /// The asset that names the rented resource.
    pub resource_mint: Pubkey,
    /// The renter's account, which pays.
    pub renter_token_account: Pubkey,
}

/// What the completion of a rental works on.
#[derive(Clone, Debug, PartialEq, Eq)]
pub struct CompleteRental {
    /// The identity of the rental record.
    pub rental_key: Pubkey,
    pub rental: RentalAgreement,
    /// Who asks for the completion.
    pub caller: Pubkey,
    /// The record of the rented resource.
    pub resource_account: Resource,
    /// The owner's account, which is paid. Taken as given.
    pub owner_token_account: Pubkey,
}

/// What the opening of a dispute works on.
#[derive(Clone, Copy, Debug, PartialEq, Eq)]
pub struct DisputeRental {
    pub rental: RentalAgreement,
    /// Who disputes the rental.
    pub caller: Pubkey,
}

/// What the resolution of a dispute works on.
#[derive(Clone, Debug, PartialEq, Eq)]
pub struct ResolveDispute {
    /// The identity of the rental record.
    pub rental_key: Pubkey,
    pub rental: RentalAgreement,
    /// Who brings the decision.
    pub caller: Pubkey,
    /// The record of the rented resource.
    pub resource_account: Resource,
    /// The renter's account, which is paid where the renter is refunded.
    pub renter_token_account: Pubkey,
    /// The owner's account, which is paid otherwise.
    pub owner_token_account: Pubkey,
}

/// What the creation of a resource works on.
#[derive(Clone, Debug, PartialEq, Eq)]
pub struct CreateResource {
    /// The record to fill.
    pub resource: Resource,
    /// The asset that names the resource.
    pub mint: Pubkey,
    /// Who owns the resource.
    pub owner: Pubkey,
    /// The nonce that was found with the identity of the record.
    pub bump: u8,
}

impl CreateRental {
    /// The record of a rental just created: the three identities as given,
    /// the amount, the time of creation, the duration, `Active`, and the
    /// nonce of the authority over its holding account.
    pub open spec fn new_rental(self, escrow: DerivedAuthority, amount: u64, duration: i64, now: i64)
        -> RentalAgreement {
        RentalAgreement {
            renter: self.renter,
            resource_owner: self.resource_owner,
            resource_mint: self.resource_mint,
            escrow_amount: amount,
            start_time: now,
            duration,
            status: RentalStatus::Active,
            bump: escrow.bump,
        }
    }

    /// The order that pays `amount` from the renter's account into the
    /// holding account, under the renter's own signature.
    pub open spec fn deposit(self, escrow: DerivedAuthority, amount: u64) -> Transfer {
        Transfer::spec_deposit(self.renter_token_account, escrow.address, self.renter, amount)
    }

    /// Creates the rental whose holding account is under the authority
    /// `escrow`: fills the record and orders the deposit. A rental holds
    /// something in custody: `amount` is above zero.
    pub fn create(&mut self, escrow: &DerivedAuthority, amount: u64, duration: i64, now: i64) -> (order:
        Transfer)
        requires
            amount > 0,
        ensures
            order == old(self).deposit(*escrow, amount),
            final(self).rental.well_formed(),
            *final(self) == (CreateRental {
                rental: old(self).new_rental(*escrow, amount, duration, now),
                ..*old(self)
            }),
    {
        self.rental.renter = self.renter;
        self.rental.resource_owner = self.resource_owner;
        self.rental.resource_mint = self.resource_mint;
        self.rental.escrow_amount = amount;
        self.rental.start_time = now;
        self.rental.duration = duration;
        self.rental.status = RentalStatus::Active;
        self.rental.bump = escrow.bump;
        Transfer::deposit(self.renter_token_account, escrow.address, self.renter, amount)
    }
}

impl CompleteRental {
    /// Why the completion is refused, if it is.
    pub open spec fn refusal(self) -> Option<ErrorCode> {
        self.rental.refusal_when_active(self.caller)
    }

    /// The order that pays the whole amount in custody out of the holding
    /// account to the owner's account.
    pub open spec fn payout(self, escrow: DerivedAuthority) -> Transfer {
        Transfer::spec_release(
            escrow,
            self.rental_key,
            self.owner_token_account,
            self.rental.escrow_amount,
        )
    }

    /// What the completion leaves: the rental `Completed`, the resource with
    /// one more success.
    pub open spec fn completed(self) -> CompleteRental {
        CompleteRental {
            rental: self.rental.with_status(RentalStatus::Completed),
            resource_account: self.resource_account.after_success(),
            ..self
        }
    }

    /// What the completion hands back: the refusal where there is one, the
    /// order of the payout otherwise.
    pub open spec fn outcome(self, escrow: DerivedAuthority) -> Result<Transfer, ErrorCode> {
        match self.refusal() {
            Some(e) => Err(e),
            None => Ok(self.payout(escrow)),
        }
    }

    /// What stands after the completion was asked for: what it leaves where
    /// it goes through, what stood before where it is refused.
    pub open spec fn after(self) -> CompleteRental {
        if self.refusal() is None {
            self.completed()
        } else {
            self
        }
    }

    /// Completes the rental whose holding account is under the authority
    /// `escrow`, if the rental is active and the caller a party to it.
    pub fn complete(&mut self, escrow: &DerivedAuthority) -> (outcome: Result<Transfer, ErrorCode>)
        requires
            old(self).refusal() is None ==> old(self).resource_account.can_record_success(),
        ensures
            outcome == old(self).outcome(*escrow),
            *final(self) == old(self).after(),
    {
        match self.rental.require_active(&self.caller) {
            Err(e) => {
                return Err(e);
            },
            Ok(()) => {},
        }
        self.rental.status = RentalStatus::Completed;
        self.resource_account.apply_success();
        Ok(
            Transfer::release(
                escrow,
                self.rental_key,
                self.owner_token_account,
                self.rental.escrow_amount,
            ),
        )
    }
}

impl DisputeRental {
    /// Why the dispute is refused, if it is.
    pub open spec fn refusal(self) -> Option<ErrorCode> {
        self.rental.refusal_when_active(self.caller)
    }

    /// What the dispute leaves: the rental `Disputed`.
    pub open spec fn disputed(self) -> DisputeRental {
        DisputeRental { rental: self.rental.with_status(RentalStatus::Disputed), ..self }
    }

    /// What the dispute hands back: the refusal where there is one.
    pub open spec fn outcome(self) -> Result<(), ErrorCode> {
        match self.refusal() {
            Some(e) => Err(e),
            None => Ok(()),
        }
    }

    /// What stands after the dispute was asked for: what it leaves where it
    /// goes through, what stood before where it is refused.
    pub open spec fn after(self) -> DisputeRental {
        if self.refusal() is None {
            self.disputed()
        } else {
            self
        }
    }
}

impl ResolveDispute {
    /// Why the resolution is refused, if it is.
    pub open spec fn refusal(self) -> Option<ErrorCode> {
        self.rental.refusal_when_disputed(self.caller)
    }

    /// The account that the decision pays: the renter's where the renter is
    /// refunded, the owner's otherwise.
    pub open spec fn payee(self, refund_to_renter: bool) -> Pubkey {
        if refund_to_renter {
            self.renter_token_account
        } else {
            self.owner_token_account
        }
    }

    /// The order that pays the whole amount in custody out of the holding
    /// account to the account that the decision names.
    pub open spec fn payout(self, escrow: DerivedAuthority, refund_to_renter: bool) -> Transfer {
        Transfer::spec_release(
            escrow,
            self.rental_key,
            self.payee(refund_to_renter),
            self.rental.escrow_amount,
        )
    }

    /// What the resolution leaves: the rental `Resolved`; the resource with
    /// a penalty where the renter is refunded, with one more success
    /// otherwise.
    pub open spec fn resolved(self, refund_to_renter: bool) -> ResolveDispute {
        ResolveDispute {
            rental: self.rental.with_status(RentalStatus::Resolved),
            resource_account: if refund_to_renter {
                self.resource_account.after_penalty()
            } else {
                self.resource_account.after_success()
            },
            ..self
        }
    }

    /// What the resolution hands back: the refusal where there is one, the
    /// order of the payout otherwise.
    pub open spec fn outcome(self, escrow: DerivedAuthority, refund_to_renter: bool) -> Result<
        Transfer,
        ErrorCode,
    > {
        match self.refusal() {
            Some(e) => Err(e),
            None => Ok(self.payout(escrow, refund_to_renter)),
        }
    }

    /// What stands after the resolution was asked for: what it leaves where
    /// it goes through, what stood before where it is refused.
    pub open spec fn after(self, refund_to_renter: bool) -> ResolveDispute {
        if self.refusal() is None {
            self.resolved(refund_to_renter)
        } else {
            self
        }
    }

    /// Resolves the dispute over the rental whose holding account is under
    /// the authority `escrow`, if the rental is disputed and the caller a
    /// party to it.
    pub fn resolve(&mut self, escrow: &DerivedAuthority, refund_to_renter: bool) -> (outcome: Result<
        Transfer,
        ErrorCode,
    >)
        requires
            old(self).refusal() is None && !refund_to_renter ==> old(
                self,
            ).resource_account.can_record_success(),
        ensures
            outcome == old(self).outcome(*escrow, refund_to_renter),
            *final(self) == old(self).after(refund_to_renter),
    {
        match self.rental.require_disputed(&self.caller) {
            Err(e) => {
                return Err(e);
            },
            Ok(()) => {},
        }
        let order = if refund_to_renter {
            self.resource_account.apply_penalty();
            Transfer::release(
                escrow,
                self.rental_key,
                self.renter_token_account,
                self.rental.escrow_amount,
            )
        } else {
            self.resource_account.apply_success();
            Transfer::release(
                escrow,
                self.rental_key,
                self.owner_token_account,
                self.rental.escrow_amount,
            )
        };
        self.rental.status = RentalStatus::Resolved;
        Ok(order)
    }
}

/// Creates a rental: derives the authority over its holding account, fills
/// the record and orders the deposit of `amount` from the renter's account
/// into the holding account. A rental holds something in custody: `amount`
/// is above zero.
///
/// `None`, and nothing changed, where no authority can be derived for the
/// record.
pub fn create_rental(ctx: &mut CreateRental, amount: u64, duration: i64, now: i64) -> (order: Option<
    Transfer,
>)
    requires
        amount > 0,
    ensures
        match escrow_authority(old(ctx).rental_key) {
            Some(escrow) => {
                &&& order == Some(old(ctx).deposit(escrow, amount))
                &&& final(ctx).rental.well_formed()
                &&& *final(ctx) == (CreateRental {
                    rental: old(ctx).new_rental(escrow, amount, duration, now),
                    ..*old(ctx)
                })
            },
            None => order is None && *final(ctx) == *old(ctx),
        },
{
    match find_escrow_authority(&ctx.rental_key) {
        Some(escrow) => Some(ctx.create(&escrow, amount, duration, now)),
        None => None,
    }
}

/// Completes an active rental on behalf of one of its parties: the rental
/// becomes `Completed`, the resource gains a success, and the whole amount
/// in custody is ordered to the owner's account.
///
/// A refusal comes first. `None`, and nothing changed, where the operation
/// is not refused and no authority can be derived for the record.
pub fn complete_rental(ctx: &mut CompleteRental) -> (outcome: Option<Result<Transfer, ErrorCode>>)
    requires
        old(ctx).refusal() is None ==> old(ctx).resource_account.can_record_success(),
    ensures
        match (old(ctx).refusal(), escrow_authority(old(ctx).rental_key)) {
            (Some(e), _) => outcome == Some(Err::<Transfer, ErrorCode>(e)) && *final(ctx) == *old(ctx),
            (None, Some(escrow)) => {
                &&& outcome == Some(old(ctx).outcome(escrow))
                &&& *final(ctx) == old(ctx).after()
            },
            (None, None) => outcome is None && *final(ctx) == *old(ctx),
        },
{
    match ctx.rental.require_active(&ctx.caller) {
        Err(e) => {
            return Some(Err(e));
        },
        Ok(()) => {},
    }
    match find_escrow_authority(&ctx.rental_key) {
        Some(escrow) => Some(ctx.complete(&escrow)),
        None => None,
    }
}

/// Opens a dispute over an active rental on behalf of one of its parties:
/// the rental becomes `Disputed`. No funds move and no standing changes.
pub fn dispute_rental(ctx: &mut DisputeRental) -> (outcome: Result<(), ErrorCode>)
    ensures
        outcome == old(ctx).outcome(),
        *final(ctx) == old(ctx).after(),
{
    match ctx.rental.require_active(&ctx.caller) {
        Err(e) => {
            return Err(e);
        },
        Ok(()) => {},
    }
    ctx.rental.status = RentalStatus::Disputed;
    Ok(())
}

/// Resolves a disputed rental on behalf of one of its parties: the rental
/// becomes `Resolved`, and the whole amount in custody is ordered to the
/// renter's account, with a penalty for the resource, or to the owner's
/// account, with a success for it.
///
/// A refusal comes first. `None`, and nothing changed, where the operation
/// is not refused and no authority can be derived for the record.
pub fn resolve_dispute(ctx: &mut ResolveDispute, refund_to_renter: bool) -> (outcome: Option<
    Result<Transfer, ErrorCode>,
>)
    requires
        old(ctx).refusal() is None && !refund_to_renter ==> old(
            ctx,
        ).resource_account.can_record_success(),
    ensures
        match (old(ctx).refusal(), escrow_authority(old(ctx).rental_key)) {
            (Some(e), _) => outcome == Some(Err::<Transfer, ErrorCode>(e)) && *final(ctx) == *old(ctx),
            (None, Some(escrow)) => {
                &&& outcome == Some(old(ctx).outcome(escrow, refund_to_renter))
                &&& *final(ctx) == old(ctx).after(refund_to_renter)
            },
            (None, None) => outcome is None && *final(ctx) == *old(ctx),
        },
{
    match ctx.rental.require_disputed(&ctx.caller) {
        Err(e) => {
            return Some(Err(e));
        },
        Ok(()) => {},
    }
    match find_escrow_authority(&ctx.rental_key) {
        Some(escrow) => Some(ctx.resolve(&escrow, refund_to_renter)),
        None => None,
    }
}

/// Creates a resource: fills the record with the owner, the asset and the
/// description given, the time of creation, the nonce found with the
/// record's identity, and both counters at zero. The two texts are short
/// enough for a resource record.
pub fn create_resource(
    ctx: &mut CreateResource,
    resource_type: String,
    specs: String,
    hourly_rate: u64,
    now: i64,
)
    requires
        Resource::texts_fit(resource_type@, specs@),
    ensures
        final(ctx).resource.spec_fits(),
        *final(ctx) == (CreateResource {
            resource: Resource {
                owner: old(ctx).owner,
                mint: old(ctx).mint,
                resource_type,
                specs,
                hourly_rate,
                reputation: 0,
                total_rentals: 0,
                created_at: now,
                bump: old(ctx).bump,
            },
            ..*old(ctx)
        }),
{
    ctx.resource.owner = ctx.owner;
    ctx.resource.mint = ctx.mint;
    ctx.resource.resource_type = resource_type;
    ctx.resource.specs = specs;
    ctx.resource.hourly_rate = hourly_rate;
    ctx.resource.reputation = 0;
    ctx.resource.total_rentals = 0;
    ctx.resource.created_at = now;
    ctx.resource.bump = ctx.bump;
}

} // verus!
