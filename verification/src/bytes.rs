//! Byte-string helpers shared by the hashing and encoding code.

use vstd::prelude::*;

verus! {

/// The byte string of `len` zero bytes.
pub open spec fn zeros(len: nat) -> Seq<u8> {
    Seq::new(len, |i: int| 0u8)
}

/// The first `width` bytes of `value` in little-endian order: the least
/// significant byte comes first.
pub open spec fn le_bytes(value: nat, width: nat) -> Seq<u8>
    decreases width,
{
    if width == 0 {
        Seq::empty()
    } else {
        seq![(value % 256) as u8] + le_bytes(value / 256, (width - 1) as nat)
    }
}

/// What is left of `value` above its first `width` bytes.
pub open spec fn above_bytes(value: nat, width: nat) -> nat
    decreases width,
{
    if width == 0 {
        value
    } else {
        above_bytes(value / 256, (width - 1) as nat)
    }
}

/// The little-endian encoding has as many bytes as asked for.
pub proof fn lemma_le_bytes_len(value: nat, width: nat)
    ensures
        le_bytes(value, width).len() == width,
    decreases width,
{
    if width > 0 {
        lemma_le_bytes_len(value / 256, (width - 1) as nat);
    }
}

/// Two values with the same first `width` bytes and the same rest above
/// them are the same value.
pub proof fn lemma_le_bytes_determine_value(a: nat, b: nat, width: nat)
    requires
        le_bytes(a, width) == le_bytes(b, width),
        above_bytes(a, width) == above_bytes(b, width),
    ensures
        a == b,
    decreases width,
{
    if width > 0 {
        let rest = (width - 1) as nat;
        let ea = le_bytes(a, width);
        let eb = le_bytes(b, width);
        assert(ea[0] == (a % 256) as u8);
        assert(eb[0] == (b % 256) as u8);
        assert(ea.drop_first() == le_bytes(a / 256, rest));
        assert(eb.drop_first() == le_bytes(b / 256, rest));
        lemma_le_bytes_determine_value(a / 256, b / 256, rest);
    }
}

/// The 16-byte little-endian encoding tells 128-bit values apart.
pub proof fn lemma_le_bytes_u128_injective(a: u128, b: u128)
    requires
        le_bytes(a as nat, 16) == le_bytes(b as nat, 16),
    ensures
        a == b,
{
    reveal_with_fuel(above_bytes, 17);
    assert(above_bytes(a as nat, 16) == 0);
    assert(above_bytes(b as nat, 16) == 0);
    lemma_le_bytes_determine_value(a as nat, b as nat, 16);
}

/// The 8-byte little-endian encoding tells 64-bit values apart.
pub proof fn lemma_le_bytes_u64_injective(a: u64, b: u64)
    requires
        le_bytes(a as nat, 8) == le_bytes(b as nat, 8),
    ensures
        a == b,
{
    reveal_with_fuel(above_bytes, 9);
    assert(above_bytes(a as nat, 8) == 0);
    assert(above_bytes(b as nat, 8) == 0);
    lemma_le_bytes_determine_value(a as nat, b as nat, 8);
}

/// Appends the first `width` bytes of `value`, least significant first.
pub fn append_le(buf: &mut Vec<u8>, value: u128, width: usize)
    ensures
        final(buf)@ == old(buf)@ + le_bytes(value as nat, width as nat),
{
    let mut rest: u128 = value;
    let mut i: usize = 0;
    while i < width
        invariant
            i <= width,
            buf@ + le_bytes(rest as nat, (width - i) as nat) == old(buf)@ + le_bytes(
                value as nat,
                width as nat,
            ),
        decreases width - i,
    {
        let ghost before = buf@;
        let low: u8 = (rest % 256) as u8;
        buf.push(low);
        proof {
            let tail = le_bytes((rest / 256) as nat, (width - i - 1) as nat);
            assert(le_bytes(rest as nat, (width - i) as nat) == seq![low] + tail);
            assert(before.push(low) + tail == before + (seq![low] + tail));
        }
        rest = rest / 256;
        i = i + 1;
    }
    assert(buf@ + le_bytes(rest as nat, 0) == buf@);
}

/// Appends `bytes` to the end of `buf`.
pub fn append_bytes(buf: &mut Vec<u8>, bytes: &[u8])
    ensures
        final(buf)@ == old(buf)@ + bytes@,
{
    let mut i: usize = 0;
    while i < bytes.len()
        invariant
            i <= bytes@.len(),
            buf@ == old(buf)@ + bytes@.subrange(0, i as int),
        decreases bytes@.len() - i,
    {
        buf.push(bytes[i]);
        i = i + 1;
    }
    assert(bytes@.subrange(0, i as int) == bytes@);
}

/// Compares two byte arrays of the same length for exact equality.
///
/// Every position is read and compared, wherever the arrays first
/// differ.
pub fn bytes_equal<const N: usize>(a: &[u8; N], b: &[u8; N]) -> (same: bool)
    ensures
        same == (a@ == b@),
{
    let mut same = true;
    let mut i: usize = 0;
    while i < N
        invariant
            i <= N,
            same == (forall|k: int| 0 <= k < i ==> a@[k] == b@[k]),
        decreases N - i,
    {
        let here = a[i] == b[i];
        same = same && here;
        i = i + 1;
    }
    proof {
        if same {
            assert(a@ =~= b@);
        }
    }
    same
}

/// Tells whether every byte of `a` is zero.
pub fn is_all_zero<const N: usize>(a: &[u8; N]) -> (zero: bool)
    ensures
        zero == (a@ == zeros(N as nat)),
{
    let mut zero = true;
    let mut i: usize = 0;
    while i < N
        invariant
            i <= N,
            zero == (forall|k: int| 0 <= k < i ==> a@[k] == 0u8),
        decreases N - i,
    {
        let here = a[i] == 0;
        zero = zero && here;
        i = i + 1;
    }
    proof {
        if zero {
            assert(a@ =~= zeros(N as nat));
        } else {
            let k = choose|k: int| 0 <= k < N && a@[k] != 0u8;
            assert(zeros(N as nat)[k] == 0u8);
        }
    }
    zero
}

} // verus!
