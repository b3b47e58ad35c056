//! Frame codec: builds the five-byte command frames understood by the lamp
//! and computes their checksum byte.
//!
//! Wire format: `[0xAA, 0x02, 0x02, payload, checksum]`. The checksum makes
//! the sum of the bytes between the header and the checksum itself congruent
//! to zero modulo 256.

use vstd::prelude::*;

verus! {

/// Sum of a byte sequence as a mathematical integer.
pub open spec fn byte_sum(s: Seq<u8>) -> int
    decreases s.len(),
{
    if s.len() == 0 {
        0
    } else {
        byte_sum(s.drop_last()) + s.last()
    }
}

/// The checksum of a frame: the two's-complement-style byte that makes the
/// sum of the bytes at indices `[1, len - 1)` plus the checksum itself
/// congruent to zero modulo 256.
pub open spec fn checksum_spec(data: Seq<u8>) -> int
    recommends
        data.len() >= 2,
{
    (0x100 - (byte_sum(data.subrange(1, data.len() - 1)) % 0x100)) % 0x100
}

pub proof fn lemma_byte_sum_nonneg(s: Seq<u8>)
    ensures
        byte_sum(s) >= 0,
    decreases s.len(),
{
    if s.len() > 0 {
        lemma_byte_sum_nonneg(s.drop_last());
    }
}

/// Checksum over the bytes at indices `[1, len - 1)`, excluding the first
/// byte and the last byte.
pub fn chksum(data: &[u8]) -> (r: u8)
    requires
        data.len() >= 2,
    ensures
        r == checksum_spec(data@),
{
    let ghost payload = data@.subrange(1, data@.len() - 1);
    let mut sum: u16 = 0;
    let mut i: usize = 1;
    while i < data.len() - 1
        invariant
            1 <= i <= data@.len() - 1,
            data@.len() >= 2,
            sum == byte_sum(data@.subrange(1, i as int)) % 0x100,
        decreases data@.len() - 1 - i,
    {
        proof {
            lemma_byte_sum_nonneg(data@.subrange(1, i as int));
            assert(data@.subrange(1, i + 1).drop_last() =~= data@.subrange(1, i as int));
        }
        sum = (sum + (data[i] as u16)) % 0x100;
        i = i + 1;
    }
    proof {
        lemma_byte_sum_nonneg(payload);
    }
    ((0x100 - sum) % 0x100) as u8
}

/// Law: the checksum closes the sum. For any frame of length at least two,
/// the sum of the bytes at indices `[1, len - 1)` plus the checksum byte is
/// congruent to zero modulo 256.
pub proof fn lemma_checksum_invariant(data: Seq<u8>)
    requires
        data.len() >= 2,
    ensures
        (byte_sum(data.subrange(1, data.len() - 1)) + checksum_spec(data)) % 0x100 == 0,
{
    let s = byte_sum(data.subrange(1, data.len() - 1));
    lemma_byte_sum_nonneg(data.subrange(1, data.len() - 1));
    let m = s % 0x100;
    assert((s + (0x100 - m) % 0x100) % 0x100 == 0) by (nonlinear_arith)
        requires
            s >= 0,
            m == s % 0x100,
    ;
}

/// Law: the checksum is a function of its input alone: equal inputs give
/// equal checksums, so computing it twice over the same bytes gives the
/// same byte.
pub proof fn lemma_checksum_deterministic(a: Seq<u8>, b: Seq<u8>)
    requires
        a == b,
    ensures
        checksum_spec(a) == checksum_spec(b),
{
}

/// A color frame: fixed header, command and subcommand bytes, the payload,
/// and the checksum over the three bytes before the checksum position.
pub open spec fn color_frame_spec(p: u8) -> Seq<u8> {
    let chk = checksum_spec(seq![0xAAu8, 0x02u8, 0x02u8, p, 0x00u8]);
    seq![0xAAu8, 0x02u8, 0x02u8, p, chk as u8]
}

/// Law: every color frame closes its sum. For any payload byte `p`, the sum
/// of the frame's bytes at indices `[1, 4)` plus its checksum byte is
/// congruent to zero modulo 256.
pub proof fn lemma_frame_checksum_invariant(p: u8)
    ensures
        (byte_sum(color_frame_spec(p).subrange(1, 4)) + color_frame_spec(p)[4]) % 0x100 == 0,
{
    let raw = seq![0xAAu8, 0x02u8, 0x02u8, p, 0x00u8];
    let frame = color_frame_spec(p);
    lemma_checksum_invariant(raw);
    lemma_byte_sum_nonneg(raw.subrange(1, 4));
    assert(frame.subrange(1, 4) =~= raw.subrange(1, 4));
    assert(0 <= checksum_spec(raw) < 0x100);
    assert(frame[4] == checksum_spec(raw));
}

/// The frame that turns the lamp off: the color frame with payload zero.
pub open spec fn off_frame_spec() -> Seq<u8> {
    color_frame_spec(0x00)
}

/// Builds the five-byte color frame for payload `p`:
/// `[0xAA, 0x02, 0x02, p, checksum]`.
pub fn build_color_frame(p: u8) -> (r: Vec<u8>)
    ensures
        r@ == color_frame_spec(p),
        r@.len() == 5,
        r@[0] == 0xAAu8 && r@[1] == 0x02u8 && r@[2] == 0x02u8 && r@[3] == p,
{
    let mut cmd: Vec<u8> = vec![0xAA, 0x02, 0x02, p, 0x00];
    let sum = chksum(cmd.as_slice());
    cmd.set(4, sum);
    proof {
        assert(cmd@ =~= color_frame_spec(p));
    }
    cmd
}

/// Builds the off frame `[0xAA, 0x02, 0x02, 0x00, 0xFC]`.
pub fn build_off_frame() -> (r: Vec<u8>)
    ensures
        r@ == off_frame_spec(),
        r@ =~= seq![0xAAu8, 0x02u8, 0x02u8, 0x00u8, 0xFCu8],
{
    let cmd = build_color_frame(0x00);
    proof {
        reveal_with_fuel(byte_sum, 4);
        let s = seq![0xAAu8, 0x02u8, 0x02u8, 0x00u8, 0x00u8];
        assert(s.subrange(1, 4) =~= seq![0x02u8, 0x02u8, 0x00u8]);
        assert(seq![0x02u8, 0x02u8, 0x00u8].drop_last() =~= seq![0x02u8, 0x02u8]);
        assert(seq![0x02u8, 0x02u8].drop_last() =~= seq![0x02u8]);
        assert(seq![0x02u8].drop_last() =~= Seq::<u8>::empty());
        assert(byte_sum(seq![0x02u8]) == 0x02);
        assert(byte_sum(seq![0x02u8, 0x02u8]) == 0x04);
        assert(byte_sum(seq![0x02u8, 0x02u8, 0x00u8]) == 0x04);
        assert(checksum_spec(s) == 0xFC);
    }
    cmd
}

} // verus!
