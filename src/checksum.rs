//! The 8-bit checksum that guards every two data bytes on the wire:
//! polynomial 0x31, initial value 0xFF, no final XOR, most significant bit
//! first.
use vstd::prelude::*;

verus! {

/// Generator polynomial, without its leading x^8 term.
pub const POLYNOMIAL: u8 = 0x31;

/// Register value before the first byte is taken in.
pub const INITIAL: u8 = 0xFF;

/// One bit step of the register: shift left, and fold the polynomial in
/// when a set bit falls off the top.
pub open spec fn shift_step(c: u8) -> u8 {
    if c & 0x80 != 0 {
        (c << 1u8) ^ 0x31u8
    } else {
        c << 1u8
    }
}

/// `n` bit steps of the register.
pub open spec fn shift_steps(c: u8, n: nat) -> u8
    decreases n,
{
    if n == 0 {
        c
    } else {
        shift_steps(shift_step(c), (n - 1) as nat)
    }
}

/// Eight bit steps of the register, written out.
pub open spec fn shift8(c: u8) -> u8 {
    shift_step(shift_step(shift_step(shift_step(shift_step(shift_step(shift_step(shift_step(c))))))))
}

/// The register after taking in one byte.
pub open spec fn absorb(crc: u8, byte: u8) -> u8 {
    shift_steps(crc ^ byte, 8)
}

/// The checksum of a byte sequence.
pub open spec fn crc8_of(data: Seq<u8>) -> u8
    decreases data.len(),
{
    if data.len() == 0 {
        INITIAL
    } else {
        absorb(crc8_of(data.drop_last()), data.last())
    }
}

/// Computes the checksum of `data`.
pub fn crc8(data: &[u8]) -> (r: u8)
    ensures
        r == crc8_of(data@),
{
    let mut crc: u8 = INITIAL;
    let mut i: usize = 0;
    while i < data.len()
        invariant
            i <= data@.len(),
            crc == crc8_of(data@.subrange(0, i as int)),
        decreases data.len() - i,
    {
        let byte = data[i];
        proof {
            let head = data@.subrange(0, i as int + 1);
            assert(head.drop_last() =~= data@.subrange(0, i as int));
            assert(head.last() == byte);
        }
        crc = crc ^ byte;
        let ghost start = crc;
        let mut bit: u8 = 0;
        while bit < 8
            invariant
                bit <= 8,
                shift_steps(crc, (8 - bit) as nat) == shift_steps(start, 8),
            decreases 8 - bit,
        {
            if crc & 0x80 != 0 {
                crc = (crc << 1u8) ^ POLYNOMIAL;
            } else {
                crc = crc << 1u8;
            }
            bit = bit + 1;
        }
        i = i + 1;
    }
    assert(data@.subrange(0, i as int) =~= data@);
    crc
}

/// The checksum of two bytes, as the register sees them.
pub open spec fn crc8_pair(a: u8, b: u8) -> u8 {
    shift8(shift8(INITIAL ^ a) ^ b)
}

proof fn lemma_shift_steps_eight(c: u8)
    ensures
        shift_steps(c, 8) == shift8(c),
{
    reveal_with_fuel(shift_steps, 9);
}

proof fn lemma_shift8_injective(x: u8, y: u8)
    by (bit_vector)
    ensures
        shift8(x) == shift8(y) ==> x == y,
{
}

/// The checksum of a two-byte sequence.
pub proof fn lemma_crc8_pair(a: u8, b: u8)
    ensures
        crc8_of(seq![a, b]) == crc8_pair(a, b),
{
    let s = seq![a, b];
    assert(s.drop_last() =~= seq![a]);
    assert(seq![a].drop_last() =~= Seq::<u8>::empty());
    assert(crc8_of(Seq::<u8>::empty()) == INITIAL);
    assert(seq![a].last() == a);
    assert(crc8_of(seq![a]) == absorb(INITIAL, a));
    assert(crc8_of(s) == absorb(crc8_of(seq![a]), b));
    lemma_shift_steps_eight(INITIAL ^ a);
    lemma_shift_steps_eight(shift8(INITIAL ^ a) ^ b);
}

/// The checksum of two bytes depends on each of them: changing either byte
/// alone always changes the checksum. It also depends on their order: some
/// pairs get another checksum when swapped.
pub proof fn lemma_pair_checksum_depends_on_both_bytes(a: u8, b: u8, c: u8)
    ensures
        b != c ==> crc8_of(seq![a, b]) != crc8_of(seq![a, c]),
        b != c ==> crc8_of(seq![b, a]) != crc8_of(seq![c, a]),
        exists|x: u8, y: u8| crc8_of(seq![x, y]) != crc8_of(seq![y, x]),
{
    lemma_crc8_pair(a, b);
    lemma_crc8_pair(a, c);
    lemma_crc8_pair(b, a);
    lemma_crc8_pair(c, a);
    let h = shift8(INITIAL ^ a);
    lemma_shift8_injective(h ^ b, h ^ c);
    assert(b != c ==> h ^ b != h ^ c) by (bit_vector);
    lemma_shift8_injective(INITIAL ^ b, INITIAL ^ c);
    assert(b != c ==> INITIAL ^ b != INITIAL ^ c) by (bit_vector);
    let hb = shift8(INITIAL ^ b);
    let hc = shift8(INITIAL ^ c);
    lemma_shift8_injective(hb ^ a, hc ^ a);
    assert(hb != hc ==> hb ^ a != hc ^ a) by (bit_vector);
    lemma_crc8_pair(0xBE, 0xEF);
    lemma_crc8_pair(0xEF, 0xBE);
    assert(crc8_pair(0xBE, 0xEF) != crc8_pair(0xEF, 0xBE)) by (bit_vector);
    assert(crc8_of(seq![0xBEu8, 0xEFu8]) != crc8_of(seq![0xEFu8, 0xBEu8]));
}

proof fn lemma_shift8_linear(x: u8, y: u8)
    by (bit_vector)
    ensures
        shift8(x ^ y) == shift8(x) ^ shift8(y),
{
}

proof fn lemma_shift8_fixed_points(d: u8)
    by (bit_vector)
    ensures
        (shift8(d) ^ d == 0) <==> (d == 0 || d == 0xEF),
{
}

/// Swapping the two bytes of a pair leaves its checksum unchanged exactly
/// when the bytes are equal or differ by 0xEF.
pub proof fn lemma_pair_checksum_swap(a: u8, b: u8)
    ensures
        crc8_of(seq![a, b]) == crc8_of(seq![b, a]) <==> (a ^ b == 0 || a ^ b == 0xEF),
{
    lemma_crc8_pair(a, b);
    lemma_crc8_pair(b, a);
    let d = a ^ b;
    let u = shift8(INITIAL ^ a) ^ b;
    let v = shift8(INITIAL ^ b) ^ a;
    lemma_shift8_linear(INITIAL ^ a, INITIAL ^ b);
    assert((INITIAL ^ a) ^ (INITIAL ^ b) == d) by (bit_vector)
        requires
            d == a ^ b,
    ;
    let sa = shift8(INITIAL ^ a);
    let sb = shift8(INITIAL ^ b);
    assert(u ^ v == (sa ^ sb) ^ d) by (bit_vector)
        requires
            u == sa ^ b,
            v == sb ^ a,
            d == a ^ b,
    ;
    assert(shift8(d) == sa ^ sb);
    lemma_shift8_fixed_points(d);
    lemma_shift8_injective(u, v);
    assert(u ^ v == 0 <==> u == v) by (bit_vector);
}

} // verus!
