//! Little-endian encoding of unsigned integers into fixed-width fields.

use vstd::arithmetic::div_mod::{lemma_div_denominator, lemma_mod_breakdown, lemma_small_mod};
use vstd::prelude::*;

verus! {

/// `256` raised to the power `n`: the weight of byte `n` in a little-endian field.
pub open spec fn pow256(n: nat) -> nat
    decreases n,
{
    if n == 0 {
        1
    } else {
        256 * pow256((n - 1) as nat)
    }
}

/// Byte `i` of the little-endian representation of `x`.
pub open spec fn le_byte(x: nat, i: nat) -> u8 {
    ((x / pow256(i)) % 256) as u8
}

/// The little-endian representation of `x` in a field of `width` bytes.
///
/// Bytes beyond the magnitude of `x` are zero; bytes of `x` beyond `width`
/// are cut off.
pub open spec fn le_bytes(x: nat, width: nat) -> Seq<u8> {
    Seq::new(width, |i: int| le_byte(x, i as nat))
}

/// Every power of 256 is positive.
pub proof fn lemma_pow256_positive(n: nat)
    ensures
        pow256(n) > 0,
    decreases n,
{
    if n > 0 {
        lemma_pow256_positive((n - 1) as nat);
    }
}

/// The capacities of the two field widths that descriptors use.
pub proof fn lemma_pow256_of_field_widths()
    ensures
        pow256(4) == 0x1_0000_0000,
        pow256(8) == 0x1_0000_0000_0000_0000,
{
    reveal_with_fuel(pow256, 9);
}

/// The number that `bytes` spell when read as one little-endian field.
pub open spec fn le_value(bytes: Seq<u8>) -> nat
    decreases bytes.len(),
{
    if bytes.len() == 0 {
        0
    } else {
        bytes[0] as nat + 256 * le_value(bytes.subrange(1, bytes.len() as int))
    }
}

/// The bytes of a field after its first are the field, one byte narrower, of
/// the number without its lowest byte.
pub proof fn lemma_le_bytes_tail(x: nat, width: nat)
    requires
        width > 0,
    ensures
        le_bytes(x, width)[0] == (x % 256) as u8,
        le_bytes(x, width).subrange(1, width as int) == le_bytes(x / 256, (width - 1) as nat),
{
    assert(pow256(0) == 1);
    let tail = le_bytes(x, width).subrange(1, width as int);
    let narrower = le_bytes(x / 256, (width - 1) as nat);
    assert forall|i: int| 0 <= i < width - 1 implies #[trigger] tail[i] == narrower[i] by {
        lemma_pow256_positive(i as nat);
        lemma_div_denominator(x as int, 256, pow256(i as nat) as int);
        assert(pow256((i + 1) as nat) == 256 * pow256(i as nat));
        assert(tail[i] == le_byte(x, (i + 1) as nat));
        assert(narrower[i] == le_byte(x / 256, i as nat));
    }
    assert(tail =~= narrower);
}

/// Reading a field back gives the number that was written, up to the field's
/// capacity: what does not fit in `width` bytes is lost, and nothing else.
pub proof fn lemma_le_value_of_le_bytes(x: nat, width: nat)
    ensures
        le_value(le_bytes(x, width)) == x % pow256(width),
    decreases width,
{
    if width == 0 {
        assert(pow256(0) == 1);
    } else {
        let narrower = (width - 1) as nat;
        lemma_le_bytes_tail(x, width);
        lemma_le_value_of_le_bytes(x / 256, narrower);
        lemma_pow256_positive(narrower);
        lemma_mod_breakdown(x as int, 256, pow256(narrower) as int);
        assert(pow256(width) == 256 * pow256(narrower));
        assert(le_bytes(x, width).len() == width);
    }
}

/// A number that fits in a field is read back unchanged, so two such numbers
/// with the same field are the same number.
pub proof fn lemma_le_bytes_injective(x: nat, y: nat, width: nat)
    requires
        x < pow256(width),
        y < pow256(width),
        le_bytes(x, width) == le_bytes(y, width),
    ensures
        x == y,
{
    lemma_le_value_of_le_bytes(x, width);
    lemma_le_value_of_le_bytes(y, width);
    lemma_small_mod(x, pow256(width));
    lemma_small_mod(y, pow256(width));
}

/// Appends the little-endian representation of `x`, `width` bytes wide, to `out`.
pub fn put_le(out: &mut Vec<u8>, x: u64, width: usize)
    ensures
        final(out)@ == old(out)@ + le_bytes(x as nat, width as nat),
{
    let ghost before = out@;
    let mut rest: u64 = x;
    let mut i: usize = 0;
    proof {
        assert(pow256(0) == 1);
        assert(out@ =~= before + le_bytes(x as nat, 0));
    }
    while i < width
        invariant
            i <= width,
            rest as nat == (x as nat) / pow256(i as nat),
            out@ == before + le_bytes(x as nat, i as nat),
        decreases width - i,
    {
        let byte: u8 = (rest % 256) as u8;
        out.push(byte);
        proof {
            lemma_pow256_positive(i as nat);
            lemma_div_denominator(x as int, pow256(i as nat) as int, 256);
            assert(pow256((i + 1) as nat) == 256 * pow256(i as nat));
            assert(pow256(i as nat) * 256 == 256 * pow256(i as nat)) by (nonlinear_arith);
            assert(byte == le_byte(x as nat, i as nat));
            assert(out@ =~= before + le_bytes(x as nat, (i + 1) as nat));
        }
        rest = rest / 256;
        i = i + 1;
    }
}

} // verus!
