//! What holds of the operations, whatever they are called on.
//!
//! The laws speak through the functions by which the operations state their
//! own contracts: `refusal` says why an operation is refused, `outcome` what
//! it hands back and `after` what stands once it was asked for; `deposit`
//! and `payout` are the orders, and `spec_balance_after` is what an order
//! does to the balance of an account.

use vstd::prelude::*;

use crate::authority::DerivedAuthority;
use crate::error::ErrorCode;
use crate::identity::Pubkey;
use crate::operations::{CompleteRental, CreateRental, DisputeRental, ResolveDispute};
use crate::rental::RentalStatus;
use crate::transfer::Transfer;

verus! {

/// A rental just created is active, holds an amount above zero and names
/// the renter, the owner and the resource that it was created for. Its
/// deposit takes exactly `amount` out
/// of the renter's account and puts exactly `amount` into the holding
/// account, and touches no other account.
///
/// The two balances are stated for a renter's account that is not the
/// holding account itself: an order from an account to itself moves nothing.
pub proof fn lemma_creation_funds_the_holding_account(
    ctx: CreateRental,
    escrow: DerivedAuthority,
    amount: u64,
    duration: i64,
    now: i64,
    other: Pubkey,
    balance: int,
)
    requires
        amount > 0,
        ctx.renter_token_account != escrow.address,
        other != ctx.renter_token_account,
        other != escrow.address,
    ensures
        ctx.new_rental(escrow, amount, duration, now).well_formed(),
        ctx.new_rental(escrow, amount, duration, now).status is Active,
        ctx.new_rental(escrow, amount, duration, now).renter == ctx.renter,
        ctx.new_rental(escrow, amount, duration, now).resource_owner == ctx.resource_owner,
        ctx.new_rental(escrow, amount, duration, now).resource_mint == ctx.resource_mint,
        ctx.new_rental(escrow, amount, duration, now).escrow_amount == amount,
        ctx.deposit(escrow, amount).spec_balance_after(escrow.address, balance) == balance + amount,
        ctx.deposit(escrow, amount).spec_balance_after(ctx.renter_token_account, balance) == balance
            - amount,
        ctx.deposit(escrow, amount).spec_balance_after(other, balance) == balance,
{
}

/// An operation goes through as a whole or not at all: where it is refused
/// it hands back the refusal and no order, and the rental and the resource
/// stand as they stood.
pub proof fn lemma_refusal_changes_nothing(
    complete: CompleteRental,
    dispute: DisputeRental,
    resolve: ResolveDispute,
    refund_to_renter: bool,
    escrow: DerivedAuthority,
)
    ensures
        complete.refusal() matches Some(e) ==> complete.outcome(escrow) == Err::<Transfer, ErrorCode>(e)
            && complete.after() == complete,
        dispute.refusal() matches Some(e) ==> dispute.outcome() == Err::<(), ErrorCode>(e)
            && dispute.after() == dispute,
        resolve.refusal() matches Some(e) ==> resolve.outcome(escrow, refund_to_renter) == Err::<
            Transfer,
            ErrorCode,
        >(e) && resolve.after(refund_to_renter) == resolve,
{
}

/// Every operation moves the status along one of the three steps or leaves
/// it, and changes nothing else of the rental record: the parties, the
/// resource, the amount in custody, the times and the nonce stay.
pub proof fn lemma_status_follows_the_steps(
    complete: CompleteRental,
    dispute: DisputeRental,
    resolve: ResolveDispute,
    refund_to_renter: bool,
)
    ensures
        complete.after().rental == complete.rental.with_status(complete.after().rental.status),
        complete.after().rental.status == complete.rental.status
            || complete.rental.status.may_become(complete.after().rental.status),
        dispute.after().rental == dispute.rental.with_status(dispute.after().rental.status),
        dispute.after().rental.status == dispute.rental.status || dispute.rental.status.may_become(
            dispute.after().rental.status,
        ),
        resolve.after(refund_to_renter).rental == resolve.rental.with_status(
            resolve.after(refund_to_renter).rental.status,
        ),
        resolve.after(refund_to_renter).rental.status == resolve.rental.status
            || resolve.rental.status.may_become(resolve.after(refund_to_renter).rental.status),
{
}

/// What a rental holds in custody is fixed at its creation: no operation
/// changes the amount, so the amount of a rental that was created stays
/// above zero, whether the operation goes through or is refused.
pub proof fn lemma_custody_is_never_empty(
    complete: CompleteRental,
    dispute: DisputeRental,
    resolve: ResolveDispute,
    refund_to_renter: bool,
)
    ensures
        complete.after().rental.escrow_amount == complete.rental.escrow_amount,
        dispute.after().rental.escrow_amount == dispute.rental.escrow_amount,
        resolve.after(refund_to_renter).rental.escrow_amount == resolve.rental.escrow_amount,
        complete.rental.well_formed() ==> complete.after().rental.well_formed(),
        dispute.rental.well_formed() ==> dispute.after().rental.well_formed(),
        resolve.rental.well_formed() ==> resolve.after(refund_to_renter).rental.well_formed(),
{
}

/// The steps lead forward only: no step leads back, none leads from a
/// status to itself, and none leads on from a final status. So a rental
/// never returns to a status that it has left.
pub proof fn lemma_steps_lead_forward(from: RentalStatus, to: RentalStatus, next: RentalStatus)
    requires
        from.may_become(to),
    ensures
        from != to,
        !to.may_become(from),
        to.may_become(next) ==> !next.may_become(from) && !next.may_become(to) && next != from,
        to.spec_is_terminal() ==> !to.may_become(next),
        !from.spec_is_terminal(),
{
}

/// Called on a rental that is not in the status it starts from, an
/// operation is refused with the error of that status, whoever calls, and
/// changes nothing.
pub proof fn lemma_wrong_status_is_refused(
    complete: CompleteRental,
    dispute: DisputeRental,
    resolve: ResolveDispute,
    refund_to_renter: bool,
    escrow: DerivedAuthority,
)
    ensures
        !(complete.rental.status is Active) ==> complete.outcome(escrow) == Err::<Transfer, ErrorCode>(
            ErrorCode::NotActive,
        ) && complete.after() == complete,
        !(dispute.rental.status is Active) ==> dispute.outcome() == Err::<(), ErrorCode>(
            ErrorCode::NotActive,
        ) && dispute.after() == dispute,
        !(resolve.rental.status is Disputed) ==> resolve.outcome(escrow, refund_to_renter) == Err::<
            Transfer,
            ErrorCode,
        >(ErrorCode::NotDisputed) && resolve.after(refund_to_renter) == resolve,
{
}

/// A rental that was completed cannot be completed again, by anyone: the
/// second completion is refused with `NotActive` and changes nothing.
pub proof fn lemma_completion_happens_once(
    first: CompleteRental,
    second: CompleteRental,
    escrow: DerivedAuthority,
)
    requires
        first.refusal() is None,
        second.rental == first.after().rental,
    ensures
        second.outcome(escrow) == Err::<Transfer, ErrorCode>(ErrorCode::NotActive),
        second.after() == second,
{
}

/// A dispute that was resolved cannot be resolved again, by anyone and
/// either way: the second resolution is refused with `NotDisputed` and
/// changes nothing.
pub proof fn lemma_resolution_happens_once(
    first: ResolveDispute,
    first_refunds: bool,
    second: ResolveDispute,
    second_refunds: bool,
    escrow: DerivedAuthority,
)
    requires
        first.refusal() is None,
        second.rental == first.after(first_refunds).rental,
    ensures
        second.outcome(escrow, second_refunds) == Err::<Transfer, ErrorCode>(ErrorCode::NotDisputed),
        second.after(second_refunds) == second,
{
}

/// On a rental that is completed or resolved every operation is refused:
/// no funds move twice.
pub proof fn lemma_final_status_admits_nothing(
    complete: CompleteRental,
    dispute: DisputeRental,
    resolve: ResolveDispute,
    refund_to_renter: bool,
    escrow: DerivedAuthority,
)
    ensures
        complete.rental.status.spec_is_terminal() ==> complete.outcome(escrow) is Err,
        dispute.rental.status.spec_is_terminal() ==> dispute.outcome() is Err,
        resolve.rental.status.spec_is_terminal() ==> resolve.outcome(escrow, refund_to_renter)
            is Err,
{
}

/// A caller who is neither the renter nor the resource owner of a rental is
/// refused by every operation on it, and changes nothing: with
/// `Unauthorized` where the rental is in the status that the operation
/// starts from, with the error of that status otherwise.
pub proof fn lemma_outsider_is_refused(
    complete: CompleteRental,
    dispute: DisputeRental,
    resolve: ResolveDispute,
    refund_to_renter: bool,
    escrow: DerivedAuthority,
)
    ensures
        !complete.rental.spec_is_party(&complete.caller) ==> complete.after() == complete
            && complete.outcome(escrow) == Err::<Transfer, ErrorCode>(
            if complete.rental.status is Active {
                ErrorCode::Unauthorized
            } else {
                ErrorCode::NotActive
            },
        ),
        !dispute.rental.spec_is_party(&dispute.caller) ==> dispute.after() == dispute
            && dispute.outcome() == Err::<(), ErrorCode>(
            if dispute.rental.status is Active {
                ErrorCode::Unauthorized
            } else {
                ErrorCode::NotActive
            },
        ),
        !resolve.rental.spec_is_party(&resolve.caller) ==> resolve.after(refund_to_renter)
            == resolve && resolve.outcome(escrow, refund_to_renter) == Err::<Transfer, ErrorCode>(
            if resolve.rental.status is Disputed {
                ErrorCode::Unauthorized
            } else {
                ErrorCode::NotDisputed
            },
        ),
{
}

/// Either party alone is admitted: the renter and the resource owner may
/// each complete or dispute an active rental and resolve a disputed one.
pub proof fn lemma_either_party_is_admitted(
    complete: CompleteRental,
    dispute: DisputeRental,
    resolve: ResolveDispute,
    refund_to_renter: bool,
    escrow: DerivedAuthority,
)
    ensures
        complete.rental.status is Active && complete.rental.spec_is_party(&complete.caller)
            ==> complete.outcome(escrow) is Ok,
        dispute.rental.status is Active && dispute.rental.spec_is_party(&dispute.caller)
            ==> dispute.outcome() is Ok,
        resolve.rental.status is Disputed && resolve.rental.spec_is_party(&resolve.caller)
            ==> resolve.outcome(escrow, refund_to_renter) is Ok,
{
}

/// A dispute moves no funds and changes no standing: it leaves the rental
/// `Disputed` and hands back no order.
pub proof fn lemma_dispute_only_marks_the_rental(ctx: DisputeRental)
    requires
        ctx.refusal() is None,
    ensures
        ctx.outcome() == Ok::<(), ErrorCode>(()),
        ctx.after().rental == ctx.rental.with_status(RentalStatus::Disputed),
        ctx.after().caller == ctx.caller,
{
}

/// The completion of a rental leaves it `Completed`, adds one to the
/// reputation and one to the count of rentals of the resource, and orders
/// the whole amount in custody out of the holding account into the owner's
/// account, under the derived authority and no other.
///
/// The two balances are stated for an owner's account that is not the
/// holding account itself.
pub proof fn lemma_completion_pays_the_owner(
    ctx: CompleteRental,
    escrow: DerivedAuthority,
    balance: int,
)
    requires
        ctx.refusal() is None,
        ctx.resource_account.can_record_success(),
        ctx.owner_token_account != escrow.address,
    ensures
        ctx.outcome(escrow) == Ok::<Transfer, ErrorCode>(ctx.payout(escrow)),
        ctx.after().rental.status is Completed,
        ctx.after().resource_account.reputation == ctx.resource_account.reputation + 1,
        ctx.after().resource_account.total_rentals == ctx.resource_account.total_rentals + 1,
        ctx.payout(escrow).amount == ctx.rental.escrow_amount,
        ctx.payout(escrow).authority == escrow.address,
        ctx.payout(escrow).spec_balance_after(escrow.address, balance) == balance
            - ctx.rental.escrow_amount,
        ctx.payout(escrow).spec_balance_after(ctx.owner_token_account, balance) == balance
            + ctx.rental.escrow_amount,
{
}

/// A resolution in the renter's favour leaves the rental `Resolved`, orders
/// the whole amount in custody out of the holding account into the renter's
/// account and takes one from the reputation of the resource, but never
/// below the least value the counter can hold; the count of rentals stays.
///
/// The two balances are stated for a renter's account that is not the
/// holding account itself.
pub proof fn lemma_refund_pays_the_renter(
    ctx: ResolveDispute,
    escrow: DerivedAuthority,
    balance: int,
)
    requires
        ctx.refusal() is None,
        ctx.renter_token_account != escrow.address,
    ensures
        ctx.outcome(escrow, true) == Ok::<Transfer, ErrorCode>(ctx.payout(escrow, true)),
        ctx.after(true).rental.status is Resolved,
        ctx.after(true).resource_account.reputation == (if ctx.resource_account.reputation
            == i32::MIN {
            i32::MIN as int
        } else {
            ctx.resource_account.reputation - 1
        }),
        ctx.after(true).resource_account.total_rentals == ctx.resource_account.total_rentals,
        ctx.payout(escrow, true).amount == ctx.rental.escrow_amount,
        ctx.payout(escrow, true).authority == escrow.address,
        ctx.payout(escrow, true).spec_balance_after(escrow.address, balance) == balance
            - ctx.rental.escrow_amount,
        ctx.payout(escrow, true).spec_balance_after(ctx.renter_token_account, balance) == balance
            + ctx.rental.escrow_amount,
{
}

/// A resolution in the owner's favour leaves the rental `Resolved`, orders
/// the whole amount in custody out of the holding account into the owner's
/// account and adds one to the reputation and one to the count of rentals
/// of the resource.
///
/// The two balances are stated for an owner's account that is not the
/// holding account itself.
pub proof fn lemma_award_pays_the_owner(ctx: ResolveDispute, escrow: DerivedAuthority, balance: int)
    requires
        ctx.refusal() is None,
        ctx.resource_account.can_record_success(),
        ctx.owner_token_account != escrow.address,
    ensures
        ctx.outcome(escrow, false) == Ok::<Transfer, ErrorCode>(ctx.payout(escrow, false)),
        ctx.after(false).rental.status is Resolved,
        ctx.after(false).resource_account.reputation == ctx.resource_account.reputation + 1,
        ctx.after(false).resource_account.total_rentals == ctx.resource_account.total_rentals + 1,
        ctx.payout(escrow, false).amount == ctx.rental.escrow_amount,
        ctx.payout(escrow, false).authority == escrow.address,
        ctx.payout(escrow, false).spec_balance_after(escrow.address, balance) == balance
            - ctx.rental.escrow_amount,
        ctx.payout(escrow, false).spec_balance_after(ctx.owner_token_account, balance) == balance
            + ctx.rental.escrow_amount,
{
}

/// What was paid into custody at creation is what leaves it at the end:
/// whichever way a rental ends, its payout takes the amount of the deposit
/// out of the account that the deposit went into, and the nonce it presents
/// is the one that the record has kept since creation.
pub proof fn lemma_custody_is_emptied_by_what_filled_it(
    create: CreateRental,
    escrow: DerivedAuthority,
    amount: u64,
    duration: i64,
    now: i64,
    complete: CompleteRental,
    resolve: ResolveDispute,
    refund_to_renter: bool,
)
    requires
        complete.rental_key == create.rental_key,
        resolve.rental_key == create.rental_key,
        complete.rental == create.new_rental(escrow, amount, duration, now),
        resolve.rental == create.new_rental(escrow, amount, duration, now).with_status(
            RentalStatus::Disputed,
        ),
    ensures
        complete.payout(escrow).from == create.deposit(escrow, amount).to,
        complete.payout(escrow).amount == amount,
        complete.payout(escrow).signer matches Some(seeds) && seeds.bump == complete.rental.bump
            && seeds.record == create.rental_key,
        resolve.payout(escrow, refund_to_renter).from == create.deposit(escrow, amount).to,
        resolve.payout(escrow, refund_to_renter).amount == amount,
        resolve.payout(escrow, refund_to_renter).signer matches Some(seeds) && seeds.bump
            == resolve.rental.bump && seeds.record == create.rental_key,
{
}

} // verus!
