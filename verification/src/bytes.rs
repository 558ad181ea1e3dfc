//! Numbers as bytes, the least significant byte first.

use vstd::prelude::*;

use crate::identity::Pubkey;

verus! {

/// How many numbers `width` bytes can tell apart: 256 to the power `width`.
pub open spec fn span(width: nat) -> nat
    decreases width,
{
    if width == 0 {
        1
    } else {
        256 * span((width - 1) as nat)
    }
}

/// The `width` bytes that stand for `value`, the least significant first.
/// What of `value` does not fit in `width` bytes is left out.
pub open spec fn le_bytes(value: nat, width: nat) -> Seq<u8>
    decreases width,
{
    if width == 0 {
        Seq::empty()
    } else {
        seq![(value % 256) as u8] + le_bytes(value / 256, (width - 1) as nat)
    }
}

/// The number that `bytes` stand for, the least significant byte first.
pub open spec fn le_value(bytes: Seq<u8>) -> nat
    decreases bytes.len(),
{
    if bytes.len() == 0 {
        0
    } else {
        bytes[0] as nat + 256 * le_value(bytes.drop_first())
    }
}

/// The unsigned number that has the 64 bits of `value` in two's complement.
pub open spec fn i64_bits(value: i64) -> u64 {
    if value >= 0 {
        value as u64
    } else {
        (value + 0x1_0000_0000_0000_0000) as u64
    }
}

/// The signed number that has the 64 bits of `bits` in two's complement.
pub open spec fn i64_of_bits(bits: u64) -> i64 {
    if bits <= i64::MAX {
        bits as i64
    } else {
        (bits - 0x1_0000_0000_0000_0000) as i64
    }
}

/// The unsigned number that has the 32 bits of `value` in two's complement.
pub open spec fn i32_bits(value: i32) -> u32 {
    if value >= 0 {
        value as u32
    } else {
        (value + 0x1_0000_0000) as u32
    }
}

/// The signed number that has the 32 bits of `bits` in two's complement.
pub open spec fn i32_of_bits(bits: u32) -> i32 {
    if bits <= i32::MAX {
        bits as i32
    } else {
        (bits - 0x1_0000_0000) as i32
    }
}

/// `le_bytes` gives as many bytes as it is asked for.
pub proof fn lemma_le_bytes_len(value: nat, width: nat)
    ensures
        le_bytes(value, width).len() == width,
    decreases width,
{
    if width > 0 {
        lemma_le_bytes_len(value / 256, (width - 1) as nat);
    }
}

/// More bytes tell more numbers apart.
pub proof fn lemma_span_grows(narrow: nat, wide: nat)
    requires
        narrow <= wide,
    ensures
        0 < span(narrow) <= span(wide),
    decreases wide,
{
    if narrow < wide {
        lemma_span_grows(narrow, (wide - 1) as nat);
    } else if wide > 0 {
        lemma_span_grows((narrow - 1) as nat, (wide - 1) as nat);
    }
}

/// Four bytes tell 2 to the power 32 numbers apart, eight bytes 2 to the
/// power 64.
pub proof fn lemma_span_of_words()
    ensures
        span(4) == 0x1_0000_0000,
        span(7) == 0x100_0000_0000_0000,
        span(8) == 0x1_0000_0000_0000_0000,
{
    reveal_with_fuel(span, 9);
}

/// The number that bytes stand for is below the span of their count.
pub proof fn lemma_le_value_bound(bytes: Seq<u8>)
    ensures
        le_value(bytes) < span(bytes.len()),
    decreases bytes.len(),
{
    if bytes.len() > 0 {
        lemma_le_value_bound(bytes.drop_first());
    }
}

/// A number that fits in `width` bytes is read back from its bytes.
pub proof fn lemma_le_value_of_bytes(value: nat, width: nat)
    requires
        value < span(width),
    ensures
        le_value(le_bytes(value, width)) == value,
    decreases width,
{
    if width > 0 {
        let rest = le_bytes(value / 256, (width - 1) as nat);
        lemma_le_value_of_bytes(value / 256, (width - 1) as nat);
        assert(le_bytes(value, width).drop_first() =~= rest);
    }
}

/// Bytes are written back from the number they stand for.
pub proof fn lemma_le_bytes_of_value(bytes: Seq<u8>)
    ensures
        le_bytes(le_value(bytes), bytes.len()) == bytes,
    decreases bytes.len(),
{
    if bytes.len() > 0 {
        let rest = bytes.drop_first();
        lemma_le_bytes_of_value(rest);
        assert(le_value(bytes) % 256 == bytes[0] as nat);
        assert(le_value(bytes) / 256 == le_value(rest));
        assert(le_bytes(le_value(bytes), bytes.len()) =~= bytes);
    }
}

/// Where bytes hold one part and then another, they hold each of the two
/// in its place.
pub proof fn lemma_split(whole: Seq<u8>, at: int, head: Seq<u8>, tail: Seq<u8>)
    requires
        0 <= at,
        at + head.len() + tail.len() <= whole.len(),
        whole.subrange(at, at + head.len() + tail.len()) == head + tail,
    ensures
        whole.subrange(at, at + head.len()) == head,
        whole.subrange(at + head.len(), at + head.len() + tail.len()) == tail,
{
    let both = whole.subrange(at, at + head.len() + tail.len());
    assert forall|i: int| 0 <= i < head.len() implies whole.subrange(at, at + head.len())[i]
        == head[i] by {
        assert(both[i] == (head + tail)[i]);
    }
    assert(whole.subrange(at, at + head.len()) =~= head);
    assert forall|i: int| 0 <= i < tail.len() implies whole.subrange(
        at + head.len(),
        at + head.len() + tail.len(),
    )[i] == tail[i] by {
        assert(both[head.len() + i] == (head + tail)[head.len() + i]);
    }
    assert(whole.subrange(at + head.len(), at + head.len() + tail.len()) =~= tail);
}

/// Where bytes hold one part in its place and another right behind it, they
/// hold the two as one.
pub proof fn lemma_join(whole: Seq<u8>, at: int, head: Seq<u8>, tail: Seq<u8>)
    requires
        0 <= at,
        at + head.len() + tail.len() <= whole.len(),
        whole.subrange(at, at + head.len()) == head,
        whole.subrange(at + head.len(), at + head.len() + tail.len()) == tail,
    ensures
        whole.subrange(at, at + head.len() + tail.len()) == head + tail,
{
    let both = whole.subrange(at, at + head.len() + tail.len());
    assert forall|i: int| 0 <= i < head.len() + tail.len() implies both[i] == (head + tail)[i] by {
        if i < head.len() {
            assert(whole.subrange(at, at + head.len())[i] == head[i]);
        } else {
            assert(whole.subrange(at + head.len(), at + head.len() + tail.len())[i - head.len()]
                == tail[i - head.len()]);
        }
    }
    assert(both =~= head + tail);
}

/// The unsigned number that has the 64 bits of `value`.
pub(crate) fn bits_of_i64(value: i64) -> (bits: u64)
    ensures
        bits == i64_bits(value),
{
    if value >= 0 {
        value as u64
    } else {
        (value as i128 + 0x1_0000_0000_0000_0000i128) as u64
    }
}

/// The signed number that has the 64 bits of `bits`.
pub(crate) fn i64_from_bits(bits: u64) -> (value: i64)
    ensures
        value == i64_of_bits(bits),
{
    if bits <= 0x7fff_ffff_ffff_ffffu64 {
        bits as i64
    } else {
        (bits as i128 - 0x1_0000_0000_0000_0000i128) as i64
    }
}

/// The unsigned number that has the 32 bits of `value`.
pub(crate) fn bits_of_i32(value: i32) -> (bits: u32)
    ensures
        bits == i32_bits(value),
{
    if value >= 0 {
        value as u32
    } else {
        (value as i64 + 0x1_0000_0000i64) as u32
    }
}

/// The signed number that has the 32 bits of `bits`.
pub(crate) fn i32_from_bits(bits: u32) -> (value: i32)
    ensures
        value == i32_of_bits(bits),
{
    if bits <= 0x7fff_ffffu32 {
        bits as i32
    } else {
        (bits as i64 - 0x1_0000_0000i64) as i32
    }
}

/// Appends the `width` low bytes of `value` to `out`, the least significant
/// first.
pub(crate) fn push_le(out: &mut Vec<u8>, value: u64, width: usize)
    ensures
        final(out)@ == old(out)@ + le_bytes(value as nat, width as nat),
{
    let ghost before = out@;
    let mut rest: u64 = value;
    let mut done: usize = 0;
    while done < width
        invariant
            done <= width,
            before + le_bytes(value as nat, width as nat) == out@ + le_bytes(
                rest as nat,
                (width - done) as nat,
            ),
        decreases width - done,
    {
        let ghost so_far = out@;
        out.push((rest % 256) as u8);
        proof {
            let tail = le_bytes((rest / 256) as nat, (width - done - 1) as nat);
            assert(le_bytes(rest as nat, (width - done) as nat) == seq![(rest % 256) as u8] + tail);
            assert(so_far + (seq![(rest % 256) as u8] + tail) =~= out@ + tail);
        }
        rest = rest / 256;
        done += 1;
    }
    assert(out@ + le_bytes(rest as nat, 0) =~= out@);
}

/// Reads the number that the `width` bytes of `bytes` from `at` on stand
/// for.
pub(crate) fn read_le(bytes: &[u8], at: usize, width: usize) -> (value: u64)
    requires
        width <= 8,
        at + width <= bytes@.len(),
    ensures
        value == le_value(bytes@.subrange(at as int, at + width)),
{
    let len = bytes.len();
    let mut value: u64 = 0;
    let mut left: usize = width;
    while left > 0
        invariant
            left <= width <= 8,
            at + width <= len == bytes@.len(),
            value == le_value(bytes@.subrange(at + left, at + width)),
        decreases left,
    {
        left -= 1;
        proof {
            let read = bytes@.subrange(at + left + 1, at + width);
            lemma_le_value_bound(read);
            lemma_span_grows(read.len(), 7);
            lemma_span_of_words();
            assert(bytes@.subrange(at + left, at + width).drop_first() =~= read);
        }
        value = value * 256 + bytes[at + left] as u64;
    }
    value
}

/// Reads the identity that the 32 bytes of `bytes` from `at` on hold.
pub(crate) fn read_key(bytes: &[u8], at: usize) -> (key: Pubkey)
    requires
        at + 32 <= bytes@.len(),
    ensures
        key@ == bytes@.subrange(at as int, at + 32),
{
    let len = bytes.len();
    let mut held = [0u8; 32];
    let mut i: usize = 0;
    while i < 32
        invariant
            i <= 32,
            at + 32 <= len == bytes@.len(),
            forall|j: int| 0 <= j < i ==> held@[j] == bytes@[at + j],
        decreases 32 - i,
    {
        held[i] = bytes[at + i];
        i += 1;
    }
    assert(held@ =~= bytes@.subrange(at as int, at + 32));
    Pubkey { bytes: held }
}

/// Whether the bytes of `bytes` from `at` on begin with `tag`.
pub(crate) fn starts_with(bytes: &[u8], tag: &[u8; 8]) -> (found: bool)
    ensures
        found == (bytes@.len() >= 8 && bytes@.subrange(0, 8) == tag@),
{
    if bytes.len() < 8 {
        return false;
    }
    let mut i: usize = 0;
    while i < 8
        invariant
            i <= 8,
            bytes@.len() >= 8,
            forall|j: int| 0 <= j < i ==> bytes@[j] == tag@[j],
        decreases 8 - i,
    {
        if bytes[i] != tag[i] {
            assert(bytes@.subrange(0, 8)[i as int] != tag@[i as int]);
            return false;
        }
        i += 1;
    }
    assert(bytes@.subrange(0, 8) =~= tag@);
    true
}

} // verus!
