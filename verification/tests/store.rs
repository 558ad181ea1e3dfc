use anchor_lang::solana_program::hash::hash;
use anchor_lang::AnchorSerialize;
use rentby::{Pubkey, RentalAgreement, RentalStatus, Resource};

fn named(byte: u8) -> Pubkey {
    Pubkey::new_from_array([byte; 32])
}

fn sample_rental() -> RentalAgreement {
    RentalAgreement {
        renter: named(1),
        resource_owner: named(2),
        resource_mint: named(3),
        escrow_amount: 1000,
        start_time: 1_700_000_100,
        duration: 3600,
        status: RentalStatus::Disputed,
        bump: 254,
    }
}

fn sample_resource() -> Resource {
    Resource {
        owner: named(2),
        mint: named(3),
        resource_type: String::from("GPU"),
        specs: String::from("A100 80GB \u{2014} 8\u{00d7}"),
        hourly_rate: 10,
        reputation: -1,
        total_rentals: 7,
        created_at: -5,
        bump: 255,
    }
}

fn serialized<T: AnchorSerialize>(value: &T) -> Vec<u8> {
    value.try_to_vec().unwrap()
}

#[test]
fn tags_are_the_first_bytes_of_the_hashed_names() {
    assert_eq!(RentalAgreement::TAG[..], hash(b"account:RentalAgreement").to_bytes()[..8]);
    assert_eq!(Resource::TAG[..], hash(b"account:Resource").to_bytes()[..8]);
}

#[test]
fn rental_is_stored_field_by_field() {
    let bytes = sample_rental().encode();
    assert_eq!(bytes.len(), 130);
    assert_eq!(bytes[..8], RentalAgreement::TAG);
    assert_eq!(bytes[8..40], [1u8; 32]);
    assert_eq!(bytes[40..72], [2u8; 32]);
    assert_eq!(bytes[72..104], [3u8; 32]);
    assert_eq!(bytes[104..112], [0xe8, 0x03, 0, 0, 0, 0, 0, 0]);
    assert_eq!(bytes[112..120], 1_700_000_100i64.to_le_bytes());
    assert_eq!(bytes[120..128], [0x10, 0x0e, 0, 0, 0, 0, 0, 0]);
    assert_eq!(bytes[128], 2);
    assert_eq!(bytes[129], 254);
}

#[test]
fn rental_is_stored_as_the_serializer_writes_it() {
    let rental = sample_rental();
    let mut expected = RentalAgreement::TAG.to_vec();
    expected.extend(serialized(&[1u8; 32]));
    expected.extend(serialized(&[2u8; 32]));
    expected.extend(serialized(&[3u8; 32]));
    expected.extend(serialized(&rental.escrow_amount));
    expected.extend(serialized(&rental.start_time));
    expected.extend(serialized(&rental.duration));
    expected.extend(serialized(&2u8));
    expected.extend(serialized(&rental.bump));
    assert_eq!(rental.encode(), expected);
}

#[test]
fn rental_is_read_back() {
    for status in [
        RentalStatus::Active,
        RentalStatus::Completed,
        RentalStatus::Disputed,
        RentalStatus::Resolved,
    ] {
        for (amount, start, duration) in [
            (0u64, 0i64, 0i64),
            (1, -1, 1),
            (u64::MAX, i64::MIN, i64::MAX),
            (0x0102_0304_0506_0708, 0x1112_1314_1516_1718, -0x0102_0304_0506_0708),
        ] {
            let rental = RentalAgreement {
                escrow_amount: amount,
                start_time: start,
                duration,
                status,
                ..sample_rental()
            };
            assert_eq!(RentalAgreement::decode(&rental.encode()), Some(rental));
        }
    }
}

#[test]
fn negative_times_are_stored_in_twos_complement() {
    let rental = RentalAgreement { start_time: -1, duration: i64::MIN, ..sample_rental() };
    let bytes = rental.encode();
    assert_eq!(bytes[112..120], [0xff; 8]);
    assert_eq!(bytes[120..128], [0, 0, 0, 0, 0, 0, 0, 0x80]);
}

#[test]
fn rental_is_not_read_from_other_bytes() {
    let good = sample_rental().encode();

    assert_eq!(RentalAgreement::decode(&[]), None);
    assert_eq!(RentalAgreement::decode(&good[..129]), None);
    let mut longer = good.clone();
    longer.push(0);
    assert_eq!(RentalAgreement::decode(&longer), None);

    let mut other_tag = good.clone();
    other_tag[7] ^= 1;
    assert_eq!(RentalAgreement::decode(&other_tag), None);
    assert_eq!(RentalAgreement::decode(&[0u8; 130]), None);

    let mut no_status = good.clone();
    no_status[128] = 4;
    assert_eq!(RentalAgreement::decode(&no_status), None);

    let resource = sample_resource().encode().unwrap();
    assert_eq!(RentalAgreement::decode(&resource), None);
    assert_eq!(RentalAgreement::decode(&resource[..130]), None);
}

#[test]
fn resource_is_stored_as_the_serializer_writes_it() {
    let resource = sample_resource();
    let mut expected = Resource::TAG.to_vec();
    expected.extend(serialized(&[2u8; 32]));
    expected.extend(serialized(&[3u8; 32]));
    expected.extend(serialized(&resource.resource_type));
    expected.extend(serialized(&resource.specs));
    expected.extend(serialized(&resource.hourly_rate));
    expected.extend(serialized(&resource.reputation));
    expected.extend(serialized(&resource.total_rentals));
    expected.extend(serialized(&resource.created_at));
    expected.extend(serialized(&resource.bump));
    let held = expected.len();
    assert_eq!(held, 105 + 3 + resource.specs.len());
    expected.resize(355, 0);

    let bytes = resource.encode().unwrap();
    assert_eq!(bytes.len(), Resource::LEN);
    assert_eq!(bytes, expected);
    assert_eq!(bytes[72..76], [3, 0, 0, 0]);
    assert_eq!(bytes[76..79], *b"GPU");
    assert_eq!(bytes[held - 17..held - 13], [0xff; 4]);
    assert_eq!(bytes[held - 13..held - 9], [7, 0, 0, 0]);
    assert_eq!(bytes[held - 1], 255);
}

#[test]
fn resource_is_read_back() {
    let resource = sample_resource();
    assert_eq!(Resource::decode(&resource.encode().unwrap()), Some(resource));

    let empty = Resource { resource_type: String::new(), specs: String::new(), ..sample_resource() };
    let bytes = empty.encode().unwrap();
    assert_eq!(bytes[72..80], [0u8; 8]);
    assert_eq!(Resource::decode(&bytes), Some(empty));

    let extreme = Resource {
        hourly_rate: u64::MAX,
        reputation: i32::MIN,
        total_rentals: u32::MAX,
        created_at: i64::MIN,
        bump: 0,
        ..sample_resource()
    };
    assert_eq!(Resource::decode(&extreme.encode().unwrap()), Some(extreme));
}

#[test]
fn resource_texts_have_a_longest_size() {
    let longest = Resource {
        resource_type: "t".repeat(50),
        specs: "s".repeat(200),
        ..sample_resource()
    };
    assert!(longest.fits());
    let bytes = longest.encode().unwrap();
    assert_eq!(bytes.len(), 355);
    assert_eq!(bytes[354], 255);
    assert_eq!(Resource::decode(&bytes), Some(longest));

    let long_type = Resource { resource_type: "t".repeat(51), ..sample_resource() };
    assert!(!long_type.fits());
    assert_eq!(long_type.encode(), None);

    let long_specs = Resource { specs: "s".repeat(201), ..sample_resource() };
    assert!(!long_specs.fits());
    assert_eq!(long_specs.encode(), None);

    // The size counts bytes, not characters.
    let wide = Resource { resource_type: "\u{00e9}".repeat(26), ..sample_resource() };
    assert_eq!(wide.resource_type.chars().count(), 26);
    assert!(!wide.fits());
    assert_eq!(wide.encode(), None);
}

#[test]
fn resource_filling_does_not_count() {
    let resource = sample_resource();
    let mut bytes = resource.encode().unwrap();
    for byte in bytes[200..].iter_mut() {
        *byte = 0xaa;
    }
    assert_eq!(Resource::decode(&bytes), Some(resource));
}

#[test]
fn resource_is_not_read_from_other_bytes() {
    let good = sample_resource().encode().unwrap();

    assert_eq!(Resource::decode(&[]), None);
    assert_eq!(Resource::decode(&good[..354]), None);
    assert_eq!(Resource::decode(&[0u8; 355]), None);
    assert_eq!(Resource::decode(&sample_rental().encode()), None);

    let mut other_tag = good.clone();
    other_tag[0] ^= 0x80;
    assert_eq!(Resource::decode(&other_tag), None);

    let mut long_type = good.clone();
    long_type[72] = 51;
    assert_eq!(Resource::decode(&long_type), None);
    long_type[72] = 3;
    long_type[75] = 1;
    assert_eq!(Resource::decode(&long_type), None);

    let mut long_specs = good.clone();
    long_specs[79] = 201;
    assert_eq!(Resource::decode(&long_specs), None);

    let mut not_text = good.clone();
    not_text[76] = 0xff;
    assert_eq!(Resource::decode(&not_text), None);

    let mut cut_text = good.clone();
    let specs_len = usize::from(cut_text[79]);
    cut_text[79] = (specs_len - 1) as u8;
    assert_eq!(Resource::decode(&cut_text), None);
}
