//! Transfer orders: what the library asks the ledger to move.
//!
//! The library moves no funds itself. Each operation that moves funds hands
//! back one order, to be carried out as a whole or not at all by whoever
//! keeps the balances.

use vstd::prelude::*;

use crate::authority::{DerivedAuthority, ESCROW_SEED};
use crate::identity::Pubkey;

verus! {

/// What a derived authority presents in place of a signature: the namespace
/// tag, the identity of its record, and its nonce.
#[derive(Clone, Copy, Debug, PartialEq, Eq)]
pub struct SignerSeeds {
    pub namespace: [u8; 6],
    pub record: Pubkey,
    pub bump: u8,
}

/// An order to move `amount` from one account to another.
#[derive(Clone, Copy, Debug, PartialEq, Eq)]
pub struct Transfer {
    /// The account that pays.
    pub from: Pubkey,
    /// The account that is paid.
    pub to: Pubkey,
    /// Who authorizes the payment.
    pub authority: Pubkey,
    /// How much is moved: all of it, or nothing.
    pub amount: u64,
    /// `None` where `authority` signs for itself; the seeds where it is a
    /// derived authority.
    pub signer: Option<SignerSeeds>,
}

impl Transfer {
    /// The order by which `payer` pays `amount` from its own account into
    /// the account `to`, under its own signature.
    pub open spec fn spec_deposit(from: Pubkey, to: Pubkey, payer: Pubkey, amount: u64) -> Transfer {
        Transfer { from, to, authority: payer, amount, signer: None }
    }

    /// The order by which the authority `escrow` over the holding account of
    /// the record `rental_key` pays `amount` out of that account to `to`.
    /// The holding account is addressed by the authority's own identity.
    pub open spec fn spec_release(
        escrow: DerivedAuthority,
        rental_key: Pubkey,
        to: Pubkey,
        amount: u64,
    ) -> Transfer {
        Transfer {
            from: escrow.address,
            to,
            authority: escrow.address,
            amount,
            signer: Some(
                SignerSeeds { namespace: ESCROW_SEED, record: rental_key, bump: escrow.bump },
            ),
        }
    }

    /// The balance of `account` once this order is carried out, given its
    /// balance before: less the amount if it pays, plus the amount if it is
    /// paid.
    pub open spec fn spec_balance_after(self, account: Pubkey, balance: int) -> int {
        balance - (if account == self.from {
            self.amount as int
        } else {
            0
        }) + (if account == self.to {
            self.amount as int
        } else {
            0
        })
    }

    /// The order by which `payer` pays `amount` from its own account into
    /// the account `to`, under its own signature.
    pub fn deposit(from: Pubkey, to: Pubkey, payer: Pubkey, amount: u64) -> (order: Transfer)
        ensures
            order == Transfer::spec_deposit(from, to, payer, amount),
    {
        Transfer { from, to, authority: payer, amount, signer: None }
    }

    /// The order by which the authority `escrow` over the holding account of
    /// the record `rental_key` pays `amount` out of that account to `to`.
    pub fn release(escrow: &DerivedAuthority, rental_key: Pubkey, to: Pubkey, amount: u64) -> (order:
        Transfer)
        ensures
            order == Transfer::spec_release(*escrow, rental_key, to, amount),
    {
        Transfer {
            from: escrow.address,
            to,
            authority: escrow.address,
            amount,
            signer: Some(
                SignerSeeds { namespace: ESCROW_SEED, record: rental_key, bump: escrow.bump },
            ),
        }
    }

    /// The balance of `account` once this order is carried out, given its
    /// balance before; `None` where the account cannot pay the amount or
    /// cannot hold it.
    pub fn balance_after(&self, account: &Pubkey, balance: u64) -> (after: Option<u64>)
        ensures
            match after {
                Some(b) => b == self.spec_balance_after(*account, balance as int),
                None => !(0 <= self.spec_balance_after(*account, balance as int) <= u64::MAX),
            },
    {
        let pays = *account == self.from;
        let paid = *account == self.to;
        if pays == paid {
            Some(balance)
        } else if pays {
            balance.checked_sub(self.amount)
        } else {
            balance.checked_add(self.amount)
        }
    }
}

} // verus!
