//! The stored form of the two records.
//!
//! A stored record begins with an 8-byte tag that tells the kind of record.
//! The fields follow in order, numbers with their least significant byte
//! first, signed numbers in two's complement.

use vstd::prelude::*;
use vstd::slice::{slice_subrange, slice_to_vec};
use vstd::utf8::{encode_utf8, encode_utf8_decode_utf8, encode_utf8_valid_utf8, valid_utf8};

use crate::bytes::{
    bits_of_i32, bits_of_i64, i32_bits, i32_from_bits, i64_bits, i64_from_bits, le_bytes,
    le_value, lemma_join, lemma_le_bytes_len, lemma_le_bytes_of_value, lemma_le_value_bound,
    lemma_le_value_of_bytes, lemma_span_of_words, lemma_split, push_le, read_key, read_le,
    starts_with,
};
use crate::rental::{RentalAgreement, RentalStatus};
use crate::resource::Resource;

verus! {

impl RentalAgreement {
    /// The eight bytes that every stored rental agreement begins with.
    pub const TAG: [u8; 8] = [84, 206, 204, 146, 240, 218, 19, 14];

    /// The stored form of this record: the tag, the renter, the owner and
    /// the asset, 32 bytes each, the amount and the two times, 8 bytes each,
    /// the byte of the status and the nonce.
    pub open spec fn spec_encode(self) -> Seq<u8> {
        RentalAgreement::TAG@ + self.renter@ + self.resource_owner@ + self.resource_mint@
            + le_bytes(self.escrow_amount as nat, 8) + le_bytes(i64_bits(self.start_time) as nat, 8)
            + le_bytes(i64_bits(self.duration) as nat, 8) + seq![
            self.status.spec_discriminant(),
            self.bump,
        ]
    }

    /// Every stored rental agreement has the same size, begins with the tag
    /// and holds the byte of a status in its last place but one.
    pub proof fn lemma_stored_shape(self)
        ensures
            self.spec_encode().len() == RentalAgreement::LEN,
            self.spec_encode().subrange(0, 8) == RentalAgreement::TAG@,
            self.spec_encode()[128] == self.status.spec_discriminant(),
            self.spec_encode()[128] <= 3,
    {
        lemma_le_bytes_len(self.escrow_amount as nat, 8);
        lemma_le_bytes_len(i64_bits(self.start_time) as nat, 8);
        lemma_le_bytes_len(i64_bits(self.duration) as nat, 8);
        assert(self.spec_encode().subrange(0, 8) =~= RentalAgreement::TAG@);
    }

    /// The stored form of this record.
    pub fn encode(&self) -> (bytes: Vec<u8>)
        ensures
            bytes@ == self.spec_encode(),
            bytes@.len() == RentalAgreement::LEN,
    {
        let mut out: Vec<u8> = Vec::new();
        out.extend_from_slice(RentalAgreement::TAG.as_slice());
        out.extend_from_slice(self.renter.bytes.as_slice());
        out.extend_from_slice(self.resource_owner.bytes.as_slice());
        out.extend_from_slice(self.resource_mint.bytes.as_slice());
        push_le(&mut out, self.escrow_amount, 8);
        push_le(&mut out, bits_of_i64(self.start_time), 8);
        push_le(&mut out, bits_of_i64(self.duration), 8);
        out.push(self.status.discriminant());
        out.push(self.bump);
        proof {
            self.lemma_stored_shape();
            assert(out@ =~= self.spec_encode());
        }
        out
    }

    /// The record that `bytes` are the stored form of; `None` where they are
    /// the stored form of no rental agreement.
    pub fn decode(bytes: &[u8]) -> (record: Option<RentalAgreement>)
        ensures
            match record {
                Some(r) => bytes@ == r.spec_encode(),
                None => forall|r: RentalAgreement| bytes@ != #[trigger] r.spec_encode(),
            },
    {
        if bytes.len() != RentalAgreement::LEN || !starts_with(bytes, &RentalAgreement::TAG) {
            assert forall|r: RentalAgreement| bytes@ != #[trigger] r.spec_encode() by {
                r.lemma_stored_shape();
            }
            return None;
        }
        let status = match RentalStatus::from_discriminant(bytes[128]) {
            Some(status) => status,
            None => {
                assert forall|r: RentalAgreement| bytes@ != #[trigger] r.spec_encode() by {
                    r.lemma_stored_shape();
                }
                return None;
            },
        };
        let record = RentalAgreement {
            renter: read_key(bytes, 8),
            resource_owner: read_key(bytes, 40),
            resource_mint: read_key(bytes, 72),
            escrow_amount: read_le(bytes, 104, 8),
            start_time: i64_from_bits(read_le(bytes, 112, 8)),
            duration: i64_from_bits(read_le(bytes, 120, 8)),
            status,
            bump: bytes[129],
        };
        proof {
            let amount = bytes@.subrange(104, 112);
            let start = bytes@.subrange(112, 120);
            let duration = bytes@.subrange(120, 128);
            lemma_span_of_words();
            lemma_le_value_bound(amount);
            lemma_le_value_bound(start);
            lemma_le_value_bound(duration);
            lemma_le_bytes_of_value(amount);
            lemma_le_bytes_of_value(start);
            lemma_le_bytes_of_value(duration);
            assert(le_bytes(record.escrow_amount as nat, 8) == amount);
            assert(le_bytes(i64_bits(record.start_time) as nat, 8) == start);
            assert(le_bytes(i64_bits(record.duration) as nat, 8) == duration);
            assert(bytes@ =~= bytes@.subrange(0, 8) + bytes@.subrange(8, 40) + bytes@.subrange(
                40,
                72,
            ) + bytes@.subrange(72, 104) + amount + start + duration + seq![
                bytes@[128],
                bytes@[129],
            ]);
        }
        Some(record)
    }
}

/// Two rental agreements with the same stored form are the same record: what
/// `decode` reads from the stored form of a record is that record.
pub proof fn lemma_stored_rental_is_one_record(a: RentalAgreement, b: RentalAgreement)
    requires
        a.spec_encode() == b.spec_encode(),
    ensures
        a == b,
{
    let stored = a.spec_encode();
    a.lemma_stored_shape();
    b.lemma_stored_shape();
    lemma_span_of_words();
    lemma_le_bytes_len(a.escrow_amount as nat, 8);
    lemma_le_bytes_len(i64_bits(a.start_time) as nat, 8);
    lemma_le_bytes_len(i64_bits(a.duration) as nat, 8);
    lemma_le_bytes_len(b.escrow_amount as nat, 8);
    lemma_le_bytes_len(i64_bits(b.start_time) as nat, 8);
    lemma_le_bytes_len(i64_bits(b.duration) as nat, 8);
    assert(a.renter@ =~= stored.subrange(8, 40));
    assert(b.renter@ =~= stored.subrange(8, 40));
    assert(a.renter.bytes =~= b.renter.bytes);
    assert(a.resource_owner@ =~= stored.subrange(40, 72));
    assert(b.resource_owner@ =~= stored.subrange(40, 72));
    assert(a.resource_owner.bytes =~= b.resource_owner.bytes);
    assert(a.resource_mint@ =~= stored.subrange(72, 104));
    assert(b.resource_mint@ =~= stored.subrange(72, 104));
    assert(a.resource_mint.bytes =~= b.resource_mint.bytes);
    assert(le_bytes(a.escrow_amount as nat, 8) =~= stored.subrange(104, 112));
    assert(le_bytes(b.escrow_amount as nat, 8) =~= stored.subrange(104, 112));
    lemma_le_value_of_bytes(a.escrow_amount as nat, 8);
    lemma_le_value_of_bytes(b.escrow_amount as nat, 8);
    assert(le_bytes(i64_bits(a.start_time) as nat, 8) =~= stored.subrange(112, 120));
    assert(le_bytes(i64_bits(b.start_time) as nat, 8) =~= stored.subrange(112, 120));
    lemma_le_value_of_bytes(i64_bits(a.start_time) as nat, 8);
    lemma_le_value_of_bytes(i64_bits(b.start_time) as nat, 8);
    assert(le_bytes(i64_bits(a.duration) as nat, 8) =~= stored.subrange(120, 128));
    assert(le_bytes(i64_bits(b.duration) as nat, 8) =~= stored.subrange(120, 128));
    lemma_le_value_of_bytes(i64_bits(a.duration) as nat, 8);
    lemma_le_value_of_bytes(i64_bits(b.duration) as nat, 8);
    assert(a.bump == stored[129]);
    assert(b.bump == stored[129]);
}

/// Calls `String::from_utf8` of the standard library, which takes bytes for
/// a text if and only if they are valid UTF-8.
///
/// Trusted: the text that comes back is the one that these bytes encode.
#[verifier::external_body]
fn text_from_utf8(bytes: Vec<u8>) -> (text: Option<String>)
    ensures
        text is Some <==> valid_utf8(bytes@),
        text matches Some(t) ==> encode_utf8(t@) == bytes@,
{
    match String::from_utf8(bytes) {
        Ok(text) => Some(text),
        Err(_) => None,
    }
}

/// The stored form of a text: the count of its bytes in four bytes, then
/// the bytes of its UTF-8 encoding.
pub open spec fn text_field(text: Seq<char>) -> Seq<u8> {
    le_bytes(encode_utf8(text).len(), 4) + encode_utf8(text)
}

impl Resource {
    /// The eight bytes that every stored resource begins with.
    pub const TAG: [u8; 8] = [10, 160, 2, 1, 42, 207, 51, 212];

    /// What the stored form holds of this record: the tag, the owner and the
    /// asset, 32 bytes each, the two texts, the rate in 8 bytes, the two
    /// counters in 4 bytes each, the time in 8 bytes and the nonce.
    pub open spec fn spec_content(self) -> Seq<u8> {
        Resource::TAG@ + self.owner@ + self.mint@ + text_field(self.resource_type@) + text_field(
            self.specs@,
        ) + le_bytes(self.hourly_rate as nat, 8) + le_bytes(i32_bits(self.reputation) as nat, 4)
            + le_bytes(self.total_rentals as nat, 4) + le_bytes(i64_bits(self.created_at) as nat, 8)
            + seq![self.bump]
    }

    /// How many bytes of the stored form hold this record; the rest is
    /// filling.
    pub open spec fn spec_content_len(self) -> nat {
        (105 + encode_utf8(self.resource_type@).len() + encode_utf8(self.specs@).len()) as nat
    }

    /// Whether `bytes` are a stored form of this record: they have the size
    /// of a stored resource and begin with what it holds of this record.
    /// What the filling holds does not count.
    pub open spec fn is_stored_in(self, bytes: Seq<u8>) -> bool {
        &&& self.spec_fits()
        &&& bytes.len() == Resource::LEN
        &&& bytes.subrange(0, self.spec_content_len() as int) == self.spec_content()
    }

    /// The stored form of this record, the filling all zero.
    pub open spec fn spec_encode(self) -> Seq<u8> {
        self.spec_content() + Seq::new(
            (Resource::LEN - self.spec_content_len()) as nat,
            |i: int| 0u8,
        )
    }

    /// Field by field, where this record lies in `bytes`: each text behind
    /// its count, and what follows a text that much further on.
    pub open spec fn laid_out_in(self, bytes: Seq<u8>) -> bool {
        let kind = encode_utf8(self.resource_type@);
        let specs = encode_utf8(self.specs@);
        let a: int = 76 + kind.len() as int;
        let b: int = a + 4 + specs.len();
        &&& kind.len() <= 50
        &&& specs.len() <= 200
        &&& bytes.len() == Resource::LEN
        &&& bytes.subrange(0, 8) == Resource::TAG@
        &&& bytes.subrange(8, 40) == self.owner@
        &&& bytes.subrange(40, 72) == self.mint@
        &&& bytes.subrange(72, 76) == le_bytes(kind.len(), 4)
        &&& bytes.subrange(76, a) == kind
        &&& bytes.subrange(a, a + 4) == le_bytes(specs.len(), 4)
        &&& bytes.subrange(a + 4, b) == specs
        &&& bytes.subrange(b, b + 8) == le_bytes(self.hourly_rate as nat, 8)
        &&& bytes.subrange(b + 8, b + 12) == le_bytes(i32_bits(self.reputation) as nat, 4)
        &&& bytes.subrange(b + 12, b + 16) == le_bytes(self.total_rentals as nat, 4)
        &&& bytes.subrange(b + 16, b + 24) == le_bytes(i64_bits(self.created_at) as nat, 8)
        &&& bytes.subrange(b + 24, b + 25) == seq![self.bump]
    }

    /// What the stored form holds of a record has the length that
    /// `spec_content_len` says.
    pub proof fn lemma_content_len(self)
        ensures
            self.spec_content().len() == self.spec_content_len(),
    {
        lemma_le_bytes_len(encode_utf8(self.resource_type@).len(), 4);
        lemma_le_bytes_len(encode_utf8(self.specs@).len(), 4);
        lemma_le_bytes_len(self.hourly_rate as nat, 8);
        lemma_le_bytes_len(i32_bits(self.reputation) as nat, 4);
        lemma_le_bytes_len(self.total_rentals as nat, 4);
        lemma_le_bytes_len(i64_bits(self.created_at) as nat, 8);
    }

    /// Bytes are a stored form of a record exactly when the record lies in
    /// them field by field.
    pub proof fn lemma_stored_layout(self, bytes: Seq<u8>)
        ensures
            self.is_stored_in(bytes) <==> self.laid_out_in(bytes),
    {
        let kind = encode_utf8(self.resource_type@);
        let specs = encode_utf8(self.specs@);
        let a: int = 76 + kind.len() as int;
        let b: int = a + 4 + specs.len();
        let kind_count = le_bytes(kind.len(), 4);
        let specs_count = le_bytes(specs.len(), 4);
        let rate = le_bytes(self.hourly_rate as nat, 8);
        let reputation = le_bytes(i32_bits(self.reputation) as nat, 4);
        let total = le_bytes(self.total_rentals as nat, 4);
        let created = le_bytes(i64_bits(self.created_at) as nat, 8);
        let last = seq![self.bump];
        let to_owner = Resource::TAG@ + self.owner@;
        let to_mint = to_owner + self.mint@;
        let to_kind = to_mint + text_field(self.resource_type@);
        let to_specs = to_kind + text_field(self.specs@);
        let to_rate = to_specs + rate;
        let to_reputation = to_rate + reputation;
        let to_total = to_reputation + total;
        let to_created = to_total + created;
        lemma_le_bytes_len(kind.len(), 4);
        lemma_le_bytes_len(specs.len(), 4);
        lemma_le_bytes_len(self.hourly_rate as nat, 8);
        lemma_le_bytes_len(i32_bits(self.reputation) as nat, 4);
        lemma_le_bytes_len(self.total_rentals as nat, 4);
        lemma_le_bytes_len(i64_bits(self.created_at) as nat, 8);
        assert(self.spec_content() == to_created + last);
        if self.is_stored_in(bytes) {
            lemma_split(bytes, 0, to_created, last);
            lemma_split(bytes, 0, to_total, created);
            lemma_split(bytes, 0, to_reputation, total);
            lemma_split(bytes, 0, to_rate, reputation);
            lemma_split(bytes, 0, to_specs, rate);
            lemma_split(bytes, 0, to_kind, text_field(self.specs@));
            lemma_split(bytes, 0, to_mint, text_field(self.resource_type@));
            lemma_split(bytes, 0, to_owner, self.mint@);
            lemma_split(bytes, 0, Resource::TAG@, self.owner@);
            lemma_split(bytes, 72, kind_count, kind);
            lemma_split(bytes, a, specs_count, specs);
        }
        if self.laid_out_in(bytes) {
            lemma_join(bytes, 72, kind_count, kind);
            lemma_join(bytes, a, specs_count, specs);
            lemma_join(bytes, 0, Resource::TAG@, self.owner@);
            lemma_join(bytes, 0, to_owner, self.mint@);
            lemma_join(bytes, 0, to_mint, text_field(self.resource_type@));
            lemma_join(bytes, 0, to_kind, text_field(self.specs@));
            lemma_join(bytes, 0, to_specs, rate);
            lemma_join(bytes, 0, to_rate, reputation);
            lemma_join(bytes, 0, to_reputation, total);
            lemma_join(bytes, 0, to_total, created);
            lemma_join(bytes, 0, to_created, last);
        }
    }

    /// What a stored form tells of every record that it holds, before any
    /// text is read: its tag, and the two counts, each within its limit and
    /// followed by that many bytes of valid UTF-8.
    pub proof fn lemma_stored_counts(self, bytes: Seq<u8>)
        requires
            self.is_stored_in(bytes),
        ensures
            ({
                let kind = encode_utf8(self.resource_type@);
                let specs = encode_utf8(self.specs@);
                let a: int = 76 + kind.len() as int;
                &&& bytes.len() == Resource::LEN
                &&& bytes.subrange(0, 8) == Resource::TAG@
                &&& le_value(bytes.subrange(72, 76)) == kind.len() <= 50
                &&& bytes.subrange(76, a) == kind
                &&& valid_utf8(kind)
                &&& le_value(bytes.subrange(a, a + 4)) == specs.len() <= 200
                &&& bytes.subrange(a + 4, a + 4 + specs.len()) == specs
                &&& valid_utf8(specs)
            }),
    {
        self.lemma_stored_layout(bytes);
        lemma_span_of_words();
        lemma_le_value_of_bytes(encode_utf8(self.resource_type@).len(), 4);
        lemma_le_value_of_bytes(encode_utf8(self.specs@).len(), 4);
        encode_utf8_valid_utf8(self.resource_type@);
        encode_utf8_valid_utf8(self.specs@);
    }

    /// The stored form of this record, the filling all zero; `None` where a
    /// text is too long to be stored.
    pub fn encode(&self) -> (bytes: Option<Vec<u8>>)
        ensures
            bytes is Some <==> self.spec_fits(),
            bytes matches Some(b) ==> b@ == self.spec_encode() && self.is_stored_in(b@),
    {
        if !self.fits() {
            return None;
        }
        let kind = self.resource_type.as_str().as_bytes();
        let specs = self.specs.as_str().as_bytes();
        let mut out: Vec<u8> = Vec::new();
        out.extend_from_slice(Resource::TAG.as_slice());
        out.extend_from_slice(self.owner.bytes.as_slice());
        out.extend_from_slice(self.mint.bytes.as_slice());
        push_le(&mut out, kind.len() as u64, 4);
        out.extend_from_slice(kind);
        push_le(&mut out, specs.len() as u64, 4);
        out.extend_from_slice(specs);
        push_le(&mut out, self.hourly_rate, 8);
        push_le(&mut out, bits_of_i32(self.reputation) as u64, 4);
        push_le(&mut out, self.total_rentals as u64, 4);
        push_le(&mut out, bits_of_i64(self.created_at), 8);
        out.push(self.bump);
        proof {
            self.lemma_content_len();
            assert(out@ =~= self.spec_content());
        }
        while out.len() < Resource::LEN
            invariant
                self.spec_content_len() <= out@.len() <= Resource::LEN,
                self.spec_content().len() == self.spec_content_len(),
                out@ =~= self.spec_content() + Seq::new(
                    (out@.len() - self.spec_content_len()) as nat,
                    |i: int| 0u8,
                ),
            decreases Resource::LEN - out@.len(),
        {
            out.push(0);
        }
        assert(out@.subrange(0, self.spec_content_len() as int) =~= self.spec_content());
        Some(out)
    }

    /// A record that `bytes` are a stored form of; `None` where they are a
    /// stored form of no resource.
    pub fn decode(bytes: &[u8]) -> (record: Option<Resource>)
        ensures
            match record {
                Some(r) => r.is_stored_in(bytes@),
                None => forall|r: Resource| !r.is_stored_in(bytes@),
            },
    {
        if bytes.len() != Resource::LEN || !starts_with(bytes, &Resource::TAG) {
            assert forall|r: Resource| !r.is_stored_in(bytes@) by {
                if r.is_stored_in(bytes@) {
                    r.lemma_stored_counts(bytes@);
                }
            }
            return None;
        }
        let kind_len = read_le(bytes, 72, 4);
        if kind_len > 50 {
            assert forall|r: Resource| !r.is_stored_in(bytes@) by {
                if r.is_stored_in(bytes@) {
                    r.lemma_stored_counts(bytes@);
                }
            }
            return None;
        }
        let kind_end: usize = 76 + kind_len as usize;
        let kind = match text_from_utf8(slice_to_vec(slice_subrange(bytes, 76, kind_end))) {
            Some(text) => text,
            None => {
                assert forall|r: Resource| !r.is_stored_in(bytes@) by {
                    if r.is_stored_in(bytes@) {
                        r.lemma_stored_counts(bytes@);
                    }
                }
                return None;
            },
        };
        let specs_len = read_le(bytes, kind_end, 4);
        if specs_len > 200 {
            assert forall|r: Resource| !r.is_stored_in(bytes@) by {
                if r.is_stored_in(bytes@) {
                    r.lemma_stored_counts(bytes@);
                }
            }
            return None;
        }
        let specs_at: usize = kind_end + 4;
        let specs_end: usize = specs_at + specs_len as usize;
        let specs = match text_from_utf8(slice_to_vec(slice_subrange(bytes, specs_at, specs_end))) {
            Some(text) => text,
            None => {
                assert forall|r: Resource| !r.is_stored_in(bytes@) by {
                    if r.is_stored_in(bytes@) {
                        r.lemma_stored_counts(bytes@);
                    }
                }
                return None;
            },
        };
        let record = Resource {
            owner: read_key(bytes, 8),
            mint: read_key(bytes, 40),
            resource_type: kind,
            specs,
            hourly_rate: read_le(bytes, specs_end, 8),
            reputation: i32_from_bits(read_le(bytes, specs_end + 8, 4) as u32),
            total_rentals: read_le(bytes, specs_end + 12, 4) as u32,
            created_at: i64_from_bits(read_le(bytes, specs_end + 16, 8)),
            bump: bytes[specs_end + 24],
        };
        proof {
            let b: int = specs_end as int;
            let reputation = bytes@.subrange(b + 8, b + 12);
            let created = bytes@.subrange(b + 16, b + 24);
            lemma_span_of_words();
            lemma_le_value_bound(bytes@.subrange(b, b + 8));
            lemma_le_value_bound(reputation);
            lemma_le_value_bound(bytes@.subrange(b + 12, b + 16));
            lemma_le_value_bound(created);
            lemma_le_bytes_of_value(bytes@.subrange(72, 76));
            lemma_le_bytes_of_value(bytes@.subrange(kind_end as int, specs_at as int));
            lemma_le_bytes_of_value(bytes@.subrange(b, b + 8));
            lemma_le_bytes_of_value(reputation);
            lemma_le_bytes_of_value(bytes@.subrange(b + 12, b + 16));
            lemma_le_bytes_of_value(created);
            assert(bytes@.subrange(b + 24, b + 25) =~= seq![record.bump]);
            assert(record.laid_out_in(bytes@));
            record.lemma_stored_layout(bytes@);
        }
        Some(record)
    }
}

/// Two resources that one stored form holds are the same record, field by
/// field and text by text: what `decode` reads from a stored form of a
/// record is that record.
pub proof fn lemma_stored_resource_is_one_record(a: Resource, b: Resource, bytes: Seq<u8>)
    requires
        a.is_stored_in(bytes),
        b.is_stored_in(bytes),
    ensures
        a.owner == b.owner,
        a.mint == b.mint,
        a.resource_type@ == b.resource_type@,
        a.specs@ == b.specs@,
        a.hourly_rate == b.hourly_rate,
        a.reputation == b.reputation,
        a.total_rentals == b.total_rentals,
        a.created_at == b.created_at,
        a.bump == b.bump,
{
    a.lemma_stored_counts(bytes);
    b.lemma_stored_counts(bytes);
    a.lemma_stored_layout(bytes);
    b.lemma_stored_layout(bytes);
    lemma_span_of_words();
    assert(a.owner.bytes =~= b.owner.bytes);
    assert(a.mint.bytes =~= b.mint.bytes);
    encode_utf8_decode_utf8(a.resource_type@);
    encode_utf8_decode_utf8(b.resource_type@);
    encode_utf8_decode_utf8(a.specs@);
    encode_utf8_decode_utf8(b.specs@);
    lemma_le_value_of_bytes(a.hourly_rate as nat, 8);
    lemma_le_value_of_bytes(b.hourly_rate as nat, 8);
    lemma_le_value_of_bytes(i32_bits(a.reputation) as nat, 4);
    lemma_le_value_of_bytes(i32_bits(b.reputation) as nat, 4);
    lemma_le_value_of_bytes(a.total_rentals as nat, 4);
    lemma_le_value_of_bytes(b.total_rentals as nat, 4);
    lemma_le_value_of_bytes(i64_bits(a.created_at) as nat, 8);
    lemma_le_value_of_bytes(i64_bits(b.created_at) as nat, 8);
    let at: int = 80 + encode_utf8(a.resource_type@).len() as int + encode_utf8(a.specs@).len();
    assert(a.bump == bytes.subrange(at + 24, at + 25)[0]);
    assert(b.bump == bytes.subrange(at + 24, at + 25)[0]);
}

} // verus!
