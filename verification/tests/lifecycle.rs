use rentby::{
    complete_rental, create_rental, create_resource, dispute_rental, find_escrow_authority,
    resolve_dispute, CompleteRental, CreateRental, CreateResource, DisputeRental, ErrorCode,
    Pubkey, RentalAgreement, RentalStatus, ResolveDispute, Resource, SignerSeeds, Transfer,
    ESCROW_SEED,
};

fn key(byte: u8) -> Pubkey {
    Pubkey::new_from_array([byte; 32])
}

const RENTER: u8 = 1;
const OWNER: u8 = 2;
const MINT: u8 = 3;
const RENTAL: u8 = 4;
const RENTER_ACCOUNT: u8 = 5;
const OWNER_ACCOUNT: u8 = 6;
const STRANGER: u8 = 9;

fn blank_rental() -> RentalAgreement {
    RentalAgreement {
        renter: key(0),
        resource_owner: key(0),
        resource_mint: key(0),
        escrow_amount: 0,
        start_time: 0,
        duration: 0,
        status: RentalStatus::Resolved,
        bump: 0,
    }
}

fn blank_resource() -> Resource {
    Resource {
        owner: key(0),
        mint: key(0),
        resource_type: String::new(),
        specs: String::new(),
        hourly_rate: 0,
        reputation: 0,
        total_rentals: 0,
        created_at: 0,
        bump: 0,
    }
}

fn gpu_resource() -> Resource {
    let mut ctx =
        CreateResource { resource: blank_resource(), mint: key(MINT), owner: key(OWNER), bump: 253 };
    create_resource(&mut ctx, String::from("GPU"), String::from("A100"), 10, 1_700_000_000);
    ctx.resource
}

fn opened_rental(amount: u64, duration: i64) -> (RentalAgreement, Transfer) {
    let mut ctx = CreateRental {
        rental_key: key(RENTAL),
        rental: blank_rental(),
        renter: key(RENTER),
        resource_owner: key(OWNER),
        resource_mint: key(MINT),
        renter_token_account: key(RENTER_ACCOUNT),
    };
    let order = create_rental(&mut ctx, amount, duration, 1_700_000_100).unwrap();
    (ctx.rental, order)
}

fn settle(order: &Transfer, account: &Pubkey, balance: u64) -> u64 {
    order.balance_after(account, balance).unwrap()
}

#[test]
fn create_resource_starts_from_zero() {
    let resource = gpu_resource();
    assert_eq!(resource.owner, key(OWNER));
    assert_eq!(resource.mint, key(MINT));
    assert_eq!(resource.resource_type, "GPU");
    assert_eq!(resource.specs, "A100");
    assert_eq!(resource.hourly_rate, 10);
    assert_eq!(resource.reputation, 0);
    assert_eq!(resource.total_rentals, 0);
    assert_eq!(resource.created_at, 1_700_000_000);
    assert_eq!(resource.bump, 253);
    assert!(resource.fits());
}

#[test]
fn create_resource_resets_counters_of_a_used_record() {
    let mut used = blank_resource();
    used.reputation = -17;
    used.total_rentals = 40;
    used.bump = 254;
    let mut ctx = CreateResource { resource: used, mint: key(MINT), owner: key(OWNER), bump: 7 };
    create_resource(&mut ctx, "t".repeat(50), "s".repeat(200), u64::MAX, i64::MIN);
    assert_eq!(ctx.resource.reputation, 0);
    assert_eq!(ctx.resource.total_rentals, 0);
    assert_eq!(ctx.resource.hourly_rate, u64::MAX);
    assert_eq!(ctx.resource.created_at, i64::MIN);
    assert_eq!(ctx.resource.resource_type.len(), 50);
    assert_eq!(ctx.resource.specs.len(), 200);
    assert_eq!(ctx.resource.bump, 7);
    assert!(ctx.resource.fits());
    assert!(ctx.resource.encode().is_some());
    assert_eq!(ctx.mint, key(MINT));
    assert_eq!(ctx.owner, key(OWNER));
    assert_eq!(ctx.bump, 7);
}

#[test]
fn texts_for_a_resource_have_a_longest_size() {
    assert!(Resource::check_texts("", ""));
    assert!(Resource::check_texts("GPU", "A100"));
    assert!(Resource::check_texts(&"t".repeat(50), &"s".repeat(200)));
    assert!(!Resource::check_texts(&"t".repeat(51), "A100"));
    assert!(!Resource::check_texts("GPU", &"s".repeat(201)));
    // The size counts bytes, not characters.
    assert!(Resource::check_texts(&"\u{00e9}".repeat(25), ""));
    assert!(!Resource::check_texts(&"\u{00e9}".repeat(26), ""));
    assert!(!Resource::check_texts("", &"\u{00e9}".repeat(101)));
}

#[test]
fn create_rental_fills_the_record_and_orders_the_deposit() {
    let escrow = find_escrow_authority(&key(RENTAL)).unwrap();
    let (rental, order) = opened_rental(1000, 3600);
    assert_eq!(
        rental,
        RentalAgreement {
            renter: key(RENTER),
            resource_owner: key(OWNER),
            resource_mint: key(MINT),
            escrow_amount: 1000,
            start_time: 1_700_000_100,
            duration: 3600,
            status: RentalStatus::Active,
            bump: escrow.bump,
        }
    );
    assert_eq!(
        order,
        Transfer {
            from: key(RENTER_ACCOUNT),
            to: escrow.address,
            authority: key(RENTER),
            amount: 1000,
            signer: None,
        }
    );
}

#[test]
fn scenario_complete() {
    let escrow = find_escrow_authority(&key(RENTAL)).unwrap();
    let resource = gpu_resource();
    assert_eq!(resource.reputation, 0);

    let mut renter_balance = 5000u64;
    let mut escrow_balance = 0u64;
    let mut owner_balance = 70u64;

    let (rental, deposit) = opened_rental(1000, 3600);
    renter_balance = settle(&deposit, &key(RENTER_ACCOUNT), renter_balance);
    escrow_balance = settle(&deposit, &escrow.address, escrow_balance);
    owner_balance = settle(&deposit, &key(OWNER_ACCOUNT), owner_balance);
    assert_eq!(escrow_balance, 1000);
    assert_eq!(renter_balance, 4000);
    assert_eq!(owner_balance, 70);
    assert_eq!(rental.status, RentalStatus::Active);

    let mut ctx = CompleteRental {
        rental_key: key(RENTAL),
        rental,
        caller: key(RENTER),
        resource_account: resource,
        owner_token_account: key(OWNER_ACCOUNT),
    };
    let payout = complete_rental(&mut ctx).unwrap().unwrap();
    assert_eq!(
        payout,
        Transfer {
            from: escrow.address,
            to: key(OWNER_ACCOUNT),
            authority: escrow.address,
            amount: 1000,
            signer: Some(SignerSeeds {
                namespace: ESCROW_SEED,
                record: key(RENTAL),
                bump: escrow.bump,
            }),
        }
    );
    escrow_balance = settle(&payout, &escrow.address, escrow_balance);
    owner_balance = settle(&payout, &key(OWNER_ACCOUNT), owner_balance);
    renter_balance = settle(&payout, &key(RENTER_ACCOUNT), renter_balance);
    assert_eq!(owner_balance, 1070);
    assert_eq!(escrow_balance, 0);
    assert_eq!(renter_balance, 4000);
    assert_eq!(ctx.resource_account.reputation, 1);
    assert_eq!(ctx.resource_account.total_rentals, 1);
    assert_eq!(ctx.rental.status, RentalStatus::Completed);
    assert_eq!(ctx.rental.escrow_amount, 1000);

    let after_first = ctx.clone();
    assert_eq!(complete_rental(&mut ctx), Some(Err(ErrorCode::NotActive)));
    assert_eq!(ctx, after_first);
}

#[test]
fn scenario_dispute_and_refund() {
    let escrow = find_escrow_authority(&key(RENTAL)).unwrap();
    let resource = gpu_resource();
    let (rental, deposit) = opened_rental(1000, 3600);
    let mut renter_balance = settle(&deposit, &key(RENTER_ACCOUNT), 1000);
    let mut escrow_balance = settle(&deposit, &escrow.address, 0);
    assert_eq!(renter_balance, 0);
    assert_eq!(escrow_balance, 1000);

    let mut dispute = DisputeRental { rental, caller: key(RENTER) };
    assert_eq!(dispute_rental(&mut dispute), Ok(()));
    assert_eq!(dispute.rental.status, RentalStatus::Disputed);
    assert_eq!(dispute.rental, RentalAgreement { status: RentalStatus::Disputed, ..rental });

    let mut ctx = ResolveDispute {
        rental_key: key(RENTAL),
        rental: dispute.rental,
        caller: key(OWNER),
        resource_account: resource,
        renter_token_account: key(RENTER_ACCOUNT),
        owner_token_account: key(OWNER_ACCOUNT),
    };
    let refund = resolve_dispute(&mut ctx, true).unwrap().unwrap();
    assert_eq!(refund.from, escrow.address);
    assert_eq!(refund.to, key(RENTER_ACCOUNT));
    assert_eq!(refund.authority, escrow.address);
    assert_eq!(refund.amount, 1000);
    renter_balance = settle(&refund, &key(RENTER_ACCOUNT), renter_balance);
    escrow_balance = settle(&refund, &escrow.address, escrow_balance);
    assert_eq!(renter_balance, 1000);
    assert_eq!(escrow_balance, 0);
    assert_eq!(settle(&refund, &key(OWNER_ACCOUNT), 70), 70);
    assert_eq!(ctx.resource_account.reputation, -1);
    assert_eq!(ctx.resource_account.total_rentals, 0);
    assert_eq!(ctx.rental.status, RentalStatus::Resolved);

    let after_first = ctx.clone();
    assert_eq!(resolve_dispute(&mut ctx, true), Some(Err(ErrorCode::NotDisputed)));
    assert_eq!(resolve_dispute(&mut ctx, false), Some(Err(ErrorCode::NotDisputed)));
    assert_eq!(ctx, after_first);
}

#[test]
fn resolution_for_the_owner_pays_the_owner() {
    let escrow = find_escrow_authority(&key(RENTAL)).unwrap();
    let (rental, _) = opened_rental(250, 60);
    let mut resource = gpu_resource();
    resource.reputation = -3;
    resource.total_rentals = 8;
    let mut ctx = ResolveDispute {
        rental_key: key(RENTAL),
        rental: RentalAgreement { status: RentalStatus::Disputed, ..rental },
        caller: key(RENTER),
        resource_account: resource,
        renter_token_account: key(RENTER_ACCOUNT),
        owner_token_account: key(OWNER_ACCOUNT),
    };
    let award = resolve_dispute(&mut ctx, false).unwrap().unwrap();
    assert_eq!(
        award,
        Transfer {
            from: escrow.address,
            to: key(OWNER_ACCOUNT),
            authority: escrow.address,
            amount: 250,
            signer: Some(SignerSeeds {
                namespace: ESCROW_SEED,
                record: key(RENTAL),
                bump: escrow.bump,
            }),
        }
    );
    assert_eq!(ctx.resource_account.reputation, -2);
    assert_eq!(ctx.resource_account.total_rentals, 9);
    assert_eq!(ctx.rental.status, RentalStatus::Resolved);
}

#[test]
fn the_owner_alone_may_complete() {
    let (rental, _) = opened_rental(1, 1);
    let mut ctx = CompleteRental {
        rental_key: key(RENTAL),
        rental,
        caller: key(OWNER),
        resource_account: gpu_resource(),
        owner_token_account: key(OWNER_ACCOUNT),
    };
    assert!(matches!(complete_rental(&mut ctx), Some(Ok(_))));
    assert_eq!(ctx.rental.status, RentalStatus::Completed);
}

#[test]
fn the_owner_alone_may_dispute() {
    let (rental, _) = opened_rental(1, 1);
    let mut ctx = DisputeRental { rental, caller: key(OWNER) };
    assert_eq!(dispute_rental(&mut ctx), Ok(()));
    assert_eq!(ctx.rental.status, RentalStatus::Disputed);
}

#[test]
fn a_stranger_is_unauthorized_and_changes_nothing() {
    let (rental, _) = opened_rental(1000, 3600);

    let mut complete = CompleteRental {
        rental_key: key(RENTAL),
        rental,
        caller: key(STRANGER),
        resource_account: gpu_resource(),
        owner_token_account: key(OWNER_ACCOUNT),
    };
    let before = complete.clone();
    assert_eq!(complete_rental(&mut complete), Some(Err(ErrorCode::Unauthorized)));
    assert_eq!(complete, before);

    let mut dispute = DisputeRental { rental, caller: key(STRANGER) };
    assert_eq!(dispute_rental(&mut dispute), Err(ErrorCode::Unauthorized));
    assert_eq!(dispute.rental, rental);

    let mut resolve = ResolveDispute {
        rental_key: key(RENTAL),
        rental: RentalAgreement { status: RentalStatus::Disputed, ..rental },
        caller: key(STRANGER),
        resource_account: gpu_resource(),
        renter_token_account: key(RENTER_ACCOUNT),
        owner_token_account: key(OWNER_ACCOUNT),
    };
    let before = resolve.clone();
    assert_eq!(resolve_dispute(&mut resolve, true), Some(Err(ErrorCode::Unauthorized)));
    assert_eq!(resolve_dispute(&mut resolve, false), Some(Err(ErrorCode::Unauthorized)));
    assert_eq!(resolve, before);
}

#[test]
fn the_status_is_looked_at_before_the_caller() {
    let (rental, _) = opened_rental(1000, 3600);
    for status in [RentalStatus::Completed, RentalStatus::Disputed, RentalStatus::Resolved] {
        let mut complete = CompleteRental {
            rental_key: key(RENTAL),
            rental: RentalAgreement { status, ..rental },
            caller: key(STRANGER),
            resource_account: gpu_resource(),
            owner_token_account: key(OWNER_ACCOUNT),
        };
        assert_eq!(complete_rental(&mut complete), Some(Err(ErrorCode::NotActive)));
        let mut dispute = DisputeRental { rental: RentalAgreement { status, ..rental }, caller: key(RENTER) };
        assert_eq!(dispute_rental(&mut dispute), Err(ErrorCode::NotActive));
        assert_eq!(dispute.rental.status, status);
    }
    for status in [RentalStatus::Active, RentalStatus::Completed, RentalStatus::Resolved] {
        let mut resolve = ResolveDispute {
            rental_key: key(RENTAL),
            rental: RentalAgreement { status, ..rental },
            caller: key(STRANGER),
            resource_account: gpu_resource(),
            renter_token_account: key(RENTER_ACCOUNT),
            owner_token_account: key(OWNER_ACCOUNT),
        };
        assert_eq!(resolve_dispute(&mut resolve, true), Some(Err(ErrorCode::NotDisputed)));
        assert_eq!(resolve.rental.status, status);
        assert_eq!(resolve.resource_account.reputation, 0);
    }
}

#[test]
fn a_disputed_rental_cannot_be_completed() {
    let (rental, _) = opened_rental(1000, 3600);
    let mut dispute = DisputeRental { rental, caller: key(RENTER) };
    assert_eq!(dispute_rental(&mut dispute), Ok(()));
    assert_eq!(dispute_rental(&mut dispute), Err(ErrorCode::NotActive));
    let mut complete = CompleteRental {
        rental_key: key(RENTAL),
        rental: dispute.rental,
        caller: key(RENTER),
        resource_account: gpu_resource(),
        owner_token_account: key(OWNER_ACCOUNT),
    };
    assert_eq!(complete_rental(&mut complete), Some(Err(ErrorCode::NotActive)));
    assert_eq!(complete.resource_account.total_rentals, 0);
}

#[test]
fn the_methods_take_the_authority_as_given() {
    let escrow = rentby::DerivedAuthority { address: key(77), bump: 200 };
    let mut create = CreateRental {
        rental_key: key(RENTAL),
        rental: blank_rental(),
        renter: key(RENTER),
        resource_owner: key(OWNER),
        resource_mint: key(MINT),
        renter_token_account: key(RENTER_ACCOUNT),
    };
    let deposit = create.create(&escrow, 42, -5, 9);
    assert_eq!(deposit.to, key(77));
    assert_eq!(create.rental.bump, 200);
    assert_eq!(create.rental.duration, -5);
    assert_eq!(create.rental.start_time, 9);

    let mut complete = CompleteRental {
        rental_key: key(RENTAL),
        rental: create.rental,
        caller: key(RENTER),
        resource_account: gpu_resource(),
        owner_token_account: key(OWNER_ACCOUNT),
    };
    let payout = complete.complete(&escrow).unwrap();
    assert_eq!(payout.from, key(77));
    assert_eq!(payout.authority, key(77));
    assert_eq!(payout.amount, 42);
    assert_eq!(payout.signer.unwrap().bump, 200);
    assert_eq!(complete.complete(&escrow), Err(ErrorCode::NotActive));

    let mut resolve = ResolveDispute {
        rental_key: key(RENTAL),
        rental: RentalAgreement { status: RentalStatus::Disputed, ..create.rental },
        caller: key(OWNER),
        resource_account: gpu_resource(),
        renter_token_account: key(RENTER_ACCOUNT),
        owner_token_account: key(OWNER_ACCOUNT),
    };
    let refund = resolve.resolve(&escrow, true).unwrap();
    assert_eq!(refund.to, key(RENTER_ACCOUNT));
    assert_eq!(refund.amount, 42);
    assert_eq!(resolve.resolve(&escrow, true), Err(ErrorCode::NotDisputed));
}

#[test]
fn the_least_rental_holds_one_unit() {
    let escrow = find_escrow_authority(&key(RENTAL)).unwrap();
    let (rental, order) = opened_rental(1, -1);
    assert_eq!(rental.escrow_amount, 1);
    assert_eq!(rental.duration, -1);
    assert_eq!(rental.status, RentalStatus::Active);
    assert_eq!(order.amount, 1);
    assert_eq!(order.to, escrow.address);
    assert_eq!(settle(&order, &escrow.address, 0), 1);
}

#[test]
fn create_rental_overwrites_what_the_record_held() {
    let mut ctx = CreateRental {
        rental_key: key(RENTAL),
        rental: RentalAgreement {
            renter: key(STRANGER),
            resource_owner: key(STRANGER),
            resource_mint: key(STRANGER),
            escrow_amount: 77,
            start_time: 77,
            duration: 77,
            status: RentalStatus::Completed,
            bump: 77,
        },
        renter: key(RENTER),
        resource_owner: key(OWNER),
        resource_mint: key(MINT),
        renter_token_account: key(RENTER_ACCOUNT),
    };
    let order = create_rental(&mut ctx, u64::MAX, i64::MAX, i64::MIN).unwrap();
    assert_eq!(order.amount, u64::MAX);
    assert_eq!(ctx.rental.renter, key(RENTER));
    assert_eq!(ctx.rental.resource_owner, key(OWNER));
    assert_eq!(ctx.rental.resource_mint, key(MINT));
    assert_eq!(ctx.rental.escrow_amount, u64::MAX);
    assert_eq!(ctx.rental.start_time, i64::MIN);
    assert_eq!(ctx.rental.duration, i64::MAX);
    assert_eq!(ctx.rental.status, RentalStatus::Active);
    assert_eq!(ctx.rental_key, key(RENTAL));
    assert_eq!(ctx.renter_token_account, key(RENTER_ACCOUNT));
}

#[test]
fn a_refund_stops_at_the_least_reputation() {
    let (rental, _) = opened_rental(5, 5);
    let mut resource = gpu_resource();
    resource.reputation = i32::MIN;
    resource.total_rentals = u32::MAX;
    let mut ctx = ResolveDispute {
        rental_key: key(RENTAL),
        rental: RentalAgreement { status: RentalStatus::Disputed, ..rental },
        caller: key(RENTER),
        resource_account: resource,
        renter_token_account: key(RENTER_ACCOUNT),
        owner_token_account: key(OWNER_ACCOUNT),
    };
    assert!(matches!(resolve_dispute(&mut ctx, true), Some(Ok(_))));
    assert_eq!(ctx.resource_account.reputation, i32::MIN);
    assert_eq!(ctx.resource_account.total_rentals, u32::MAX);
    assert_eq!(ctx.rental.status, RentalStatus::Resolved);
}

#[test]
fn completion_fills_the_counters_to_the_brim() {
    let (rental, _) = opened_rental(5, 5);
    let mut resource = gpu_resource();
    resource.reputation = i32::MAX - 1;
    resource.total_rentals = u32::MAX - 1;
    let mut ctx = CompleteRental {
        rental_key: key(RENTAL),
        rental,
        caller: key(OWNER),
        resource_account: resource,
        owner_token_account: key(OWNER_ACCOUNT),
    };
    assert!(matches!(complete_rental(&mut ctx), Some(Ok(_))));
    assert_eq!(ctx.resource_account.reputation, i32::MAX);
    assert_eq!(ctx.resource_account.total_rentals, u32::MAX);
    assert!(!ctx.resource_account.can_record_success());

    // Full counters do not stand in the way of a refusal.
    assert_eq!(complete_rental(&mut ctx), Some(Err(ErrorCode::NotActive)));
    ctx.rental.status = RentalStatus::Active;
    ctx.caller = key(STRANGER);
    assert_eq!(complete_rental(&mut ctx), Some(Err(ErrorCode::Unauthorized)));
    assert_eq!(ctx.resource_account.reputation, i32::MAX);
}

#[test]
fn rentals_of_different_records_are_held_apart() {
    let first = find_escrow_authority(&key(RENTAL)).unwrap();
    let second = find_escrow_authority(&key(RENTAL + 1)).unwrap();
    assert_ne!(first.address, second.address);

    let (rental, _) = opened_rental(10, 10);
    let mut ctx = CompleteRental {
        rental_key: key(RENTAL + 1),
        rental,
        caller: key(RENTER),
        resource_account: gpu_resource(),
        owner_token_account: key(OWNER_ACCOUNT),
    };
    let payout = complete_rental(&mut ctx).unwrap().unwrap();
    assert_eq!(payout.from, second.address);
    assert_eq!(payout.authority, second.address);
    assert_eq!(payout.signer.unwrap().record, key(RENTAL + 1));
    assert_eq!(payout.signer.unwrap().bump, second.bump);
}
