//! Custody and lifecycle engine for resource-rental agreements.
//!
//! A renter pays into a holding account that no party controls. The owner
//! of the rented resource is paid out of it once the rental is completed;
//! either party may instead dispute the rental, and the decision on the
//! dispute then sends the funds to one of the two.
//!
//! - [`operations`] holds the five operations and what each works on;
//! - [`rental`] and [`resource`] hold the two records and the rules that
//!   change them;
//! - [`authority`] derives the key-less authority over a holding account;
//! - [`transfer`] holds the orders by which funds move;
//! - [`store`] gives the records their stored form, with [`bytes`] for the
//!   numbers in it;
//! - [`laws`] states what holds of the operations whatever they are called
//!   on.
//!
//! The engine decides and keeps the records; it reads no clock and moves no
//! funds. The time is handed to it, and the orders it hands back are for the
//! ledger to carry out.

pub mod authority;
pub mod bytes;
pub mod error;
pub mod identity;
pub mod laws;
pub mod operations;
pub mod rental;
pub mod resource;
pub mod store;
pub mod transfer;

pub use authority::{
    derive_authority, find_escrow_authority, DerivedAuthority, ESCROW_SEED, MAX_SEEDS, MAX_SEED_LEN,
};
pub use error::ErrorCode;
pub use identity::{id, Pubkey, ID};
pub use operations::{
    complete_rental, create_rental, create_resource, dispute_rental, resolve_dispute,
    CompleteRental, CreateRental, CreateResource, DisputeRental, ResolveDispute,
};
pub use rental::{RentalAgreement, RentalStatus};
pub use resource::Resource;
pub use transfer::{SignerSeeds, Transfer};
