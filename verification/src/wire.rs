//! Little-endian wire encoding.
//!
//! NVMe data structures are little-endian on the wire. The encoding is stated
//! here as arithmetic on bytes, and proved to be undone by decoding.

use vstd::arithmetic::div_mod::lemma_div_denominator;
use vstd::arithmetic::power::{lemma_pow0, lemma_pow_positive, pow};
use vstd::prelude::*;

verus! {

/// The `n` low-order bytes of `value`, least significant byte first.
pub open spec fn le_bytes(value: nat, n: nat) -> Seq<u8>
    decreases n,
{
    if n == 0 {
        Seq::empty()
    } else {
        seq![(value % 256) as u8] + le_bytes(value / 256, (n - 1) as nat)
    }
}

/// The number whose little-endian bytes are `bytes`.
pub open spec fn le_value(bytes: Seq<u8>) -> nat
    decreases bytes.len(),
{
    if bytes.len() == 0 {
        0
    } else {
        bytes[0] as nat + 256 * le_value(bytes.drop_first())
    }
}

/// `256` to the power of `n`: how many values fit into `n` bytes.
pub open spec fn byte_range(n: nat) -> nat
    decreases n,
{
    if n == 0 {
        1
    } else {
        256 * byte_range((n - 1) as nat)
    }
}

/// An encoded number has as many bytes as were asked for.
pub proof fn le_bytes_len(value: nat, n: nat)
    ensures
        le_bytes(value, n).len() == n,
    decreases n,
{
    if n > 0 {
        le_bytes_len(value / 256, (n - 1) as nat);
    }
}

/// Decoding undoes encoding, for every number that fits into `n` bytes.
pub proof fn le_round_trip(value: nat, n: nat)
    requires
        value < byte_range(n),
    ensures
        le_value(le_bytes(value, n)) == value,
    decreases n,
{
    if n > 0 {
        let rest = le_bytes(value / 256, (n - 1) as nat);
        le_round_trip(value / 256, (n - 1) as nat);
        assert(le_bytes(value, n).drop_first() =~= rest);
        assert(value == value % 256 + 256 * (value / 256)) by (nonlinear_arith);
    }
}

/// Encoding undoes decoding.
pub proof fn le_decode_encode(bytes: Seq<u8>)
    ensures
        le_bytes(le_value(bytes), bytes.len()) == bytes,
        le_value(bytes) < byte_range(bytes.len()),
    decreases bytes.len(),
{
    if bytes.len() > 0 {
        let rest = bytes.drop_first();
        le_decode_encode(rest);
        let v = le_value(bytes);
        assert(v % 256 == bytes[0] as nat && v / 256 == le_value(rest));
        assert(le_bytes(v, bytes.len()) =~= bytes);
    } else {
        assert(le_bytes(le_value(bytes), bytes.len()) =~= bytes);
    }
}

/// A number below `256^n` takes `n` bytes and is read back from them, for the
/// field widths in use.
pub proof fn le_field(value: nat, n: nat)
    requires
        n == 2 && value <= 0xffff || n == 4 && value <= 0xffff_ffff || n == 8 && value
            <= 0xffff_ffff_ffff_ffff,
    ensures
        le_bytes(value, n).len() == n,
        le_value(le_bytes(value, n)) == value,
{
    reveal_with_fuel(byte_range, 9);
    le_bytes_len(value, n);
    le_round_trip(value, n);
}

/// Byte `i` of an encoded number is its digit of weight `256^i`.
pub proof fn le_bytes_digit(value: nat, n: nat, i: int)
    requires
        0 <= i < n,
    ensures
        le_bytes(value, n).len() == n,
        le_bytes(value, n)[i] == (value as int / pow(256, i as nat)) % 256,
    decreases n,
{
    le_bytes_len(value, n);
    let rest = le_bytes(value / 256, (n - 1) as nat);
    le_bytes_len(value / 256, (n - 1) as nat);
    if i == 0 {
        lemma_pow0(256);
        assert(value as int / 1 == value);
    } else {
        le_bytes_digit(value / 256, (n - 1) as nat, i - 1);
        lemma_pow_positive(256, (i - 1) as nat);
        assert(pow(256, i as nat) == 256 * pow(256, (i - 1) as nat)) by {
            reveal(pow);
        }
        lemma_div_denominator(value as int, 256, pow(256, (i - 1) as nat));
        assert(le_bytes(value, n)[i] == rest[i - 1]);
    }
}

/// `n` zero bytes.
pub open spec fn zeros(n: nat) -> Seq<u8> {
    Seq::new(n, |i: int| 0u8)
}

/// The parts one after the other.
pub open spec fn joined(parts: Seq<Seq<u8>>) -> Seq<u8>
    decreases parts.len(),
{
    if parts.len() == 0 {
        Seq::empty()
    } else {
        joined(parts.drop_last()) + parts.last()
    }
}

/// Where every part has `width` bytes, part `i` stands at `width * i`.
pub proof fn joined_part(parts: Seq<Seq<u8>>, width: nat, i: int)
    requires
        0 <= i < parts.len(),
        forall|k: int| 0 <= k < parts.len() ==> (#[trigger] parts[k]).len() == width,
    ensures
        joined(parts).len() == width * parts.len(),
        joined(parts).subrange(width * i, width * i + width) == parts[i],
    decreases parts.len(),
{
    let n = parts.len() as int;
    let front = parts.drop_last();
    if n == 1 {
        assert(joined(front) =~= Seq::empty());
        assert(width * n == width && width * i == 0) by (nonlinear_arith)
            requires
                n == 1,
                i == 0,
        ;
    } else {
        let j = if i < n - 1 {
            i
        } else {
            0
        };
        assert forall|k: int| 0 <= k < front.len() implies (#[trigger] front[k]).len() == width by {
            assert(front[k] == parts[k]);
        }
        joined_part(front, width, j);
        assert(width * n == width * (n - 1) + width) by (nonlinear_arith);
        if i < n - 1 {
            assert(0 <= width * i && width * i + width <= width * (n - 1)) by (nonlinear_arith)
                requires
                    0 <= i < n - 1,
                    0 <= width,
            ;
            assert(front[i] == parts[i]);
        }
    }
    assert(joined(parts).subrange(width * i, width * i + width) =~= parts[i]);
}

/// Append the `n` low-order bytes of `value` to `out`, least significant first.
pub fn push_le(out: &mut Vec<u8>, value: u64, n: usize)
    ensures
        final(out)@ == old(out)@ + le_bytes(value as nat, n as nat),
{
    let mut rest: u64 = value;
    let mut i: usize = 0;
    let ghost start = out@;
    proof {
        assert(start + le_bytes(value as nat, n as nat) =~= out@ + le_bytes(rest as nat, n as nat));
    }
    while i < n
        invariant
            i <= n,
            start + le_bytes(value as nat, n as nat) == out@ + le_bytes(
                rest as nat,
                (n - i) as nat,
            ),
        decreases n - i,
    {
        let ghost before = out@;
        let byte: u8 = (rest % 256) as u8;
        out.push(byte);
        proof {
            let tail = le_bytes((rest / 256) as nat, (n - i - 1) as nat);
            assert(before + (seq![byte] + tail) =~= out@ + tail);
        }
        rest = rest / 256;
        i = i + 1;
    }
    assert(out@ + le_bytes(rest as nat, 0) =~= out@);
}

/// Append `n` zero bytes to `out`.
pub fn push_zeros(out: &mut Vec<u8>, n: usize)
    ensures
        final(out)@ == old(out)@ + zeros(n as nat),
{
    let ghost start = out@;
    let mut i: usize = 0;
    assert(out@ =~= start + zeros(0));
    while i < n
        invariant
            i <= n,
            out@ == start + zeros(i as nat),
        decreases n - i,
    {
        out.push(0u8);
        i = i + 1;
        assert(out@ =~= start + zeros(i as nat));
    }
}

/// The 128-bit number whose little-endian bytes are `bytes`.
pub fn u128_from_le_bytes(bytes: &[u8; 16]) -> (value: u128)
    ensures
        value == le_value(bytes@),
{
    let mut value: u128 = 0;
    let mut i: usize = 16;
    proof {
        assert(bytes@.skip(16) =~= Seq::<u8>::empty());
        assert(byte_range(0) == 1);
    }
    while i > 0
        invariant
            i <= 16,
            value == le_value(bytes@.skip(i as int)),
            value < byte_range((16 - i) as nat),
        decreases i,
    {
        let ghost rest = bytes@.skip(i as int);
        i = i - 1;
        proof {
            assert(bytes@.skip(i as int).drop_first() =~= rest);
            le_decode_encode(bytes@.skip(i as int));
            byte_range_16((16 - i) as nat);
        }
        value = bytes[i] as u128 + 256 * value;
    }
    assert(bytes@.skip(0) =~= bytes@);
    value
}

/// Up to sixteen bytes fit into 128 bits.
proof fn byte_range_16(n: nat)
    requires
        n <= 16,
    ensures
        byte_range(n) <= 0x1_0000_0000_0000_0000_0000_0000_0000_0000,
{
    reveal_with_fuel(byte_range, 17);
}

} // verus!
