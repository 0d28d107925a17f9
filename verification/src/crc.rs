//! CRC-16 used to protect every frame on the serial link
//! (reflected polynomial 0xA001, initial value 0, no final xor).

use vstd::prelude::*;

verus! {

/// One shift of the reflected CRC register.
pub open spec fn crc_shift(c: u16) -> u16 {
    if c & 1 == 1 {
        (c >> 1u16) ^ 0xA001u16
    } else {
        c >> 1u16
    }
}

/// The register after feeding one byte: xor it in, then shift eight times.
pub open spec fn crc_update(crc: u16, byte: u8) -> u16 {
    let c0 = crc ^ (byte as u16);
    crc_shift(crc_shift(crc_shift(crc_shift(crc_shift(crc_shift(crc_shift(crc_shift(c0))))))))
}

/// The CRC of a byte sequence, fed from the first byte to the last, starting from 0.
pub open spec fn crc16(s: Seq<u8>) -> u16
    decreases s.len(),
{
    if s.len() == 0 {
        0
    } else {
        crc_update(crc16(s.drop_last()), s.last())
    }
}

/// Feeding different bytes into the same register gives different registers.
pub proof fn lemma_update_injective_in_byte(c: u16, x: u8, y: u8)
    requires
        x != y,
    ensures
        crc_update(c, x) != crc_update(c, y),
{
    assert(x != y ==> crc_update(c, x) != crc_update(c, y)) by (bit_vector);
}

/// Feeding the same byte into different registers gives different registers.
pub proof fn lemma_update_injective_in_register(c1: u16, c2: u16, z: u8)
    requires
        c1 != c2,
    ensures
        crc_update(c1, z) != crc_update(c2, z),
{
    assert(c1 != c2 ==> crc_update(c1, z) != crc_update(c2, z)) by (bit_vector);
}

/// Changing any one byte of a sequence changes its CRC.
pub proof fn lemma_crc16_detects_single_byte_change(a: Seq<u8>, k: int, v: u8)
    requires
        0 <= k < a.len(),
        a[k] != v,
    ensures
        crc16(a) != crc16(a.update(k, v)),
    decreases a.len(),
{
    let b = a.update(k, v);
    let n = a.len() - 1;
    if k == n {
        assert(b.drop_last() =~= a.drop_last());
        lemma_update_injective_in_byte(crc16(a.drop_last()), a.last(), v);
    } else {
        assert(b.drop_last() =~= a.drop_last().update(k, v));
        lemma_crc16_detects_single_byte_change(a.drop_last(), k, v);
        lemma_update_injective_in_register(crc16(a.drop_last()), crc16(b.drop_last()), a.last());
    }
}

/// Byte-wise exclusive or of two sequences of the same length.
pub open spec fn xor_bytes(a: Seq<u8>, b: Seq<u8>) -> Seq<u8> {
    Seq::new(a.len(), |i: int| a[i] ^ b[i])
}

proof fn lemma_shift_xor(a: u16, b: u16)
    ensures
        crc_shift(a ^ b) == crc_shift(a) ^ crc_shift(b),
{
    assert(crc_shift(a ^ b) == crc_shift(a) ^ crc_shift(b)) by (bit_vector);
}

proof fn lemma_update_xor(c1: u16, c2: u16, x: u8, y: u8)
    ensures
        crc_update(c1 ^ c2, x ^ y) == crc_update(c1, x) ^ crc_update(c2, y),
{
    let a0 = c1 ^ (x as u16);
    let b0 = c2 ^ (y as u16);
    assert((c1 ^ c2) ^ ((x ^ y) as u16) == a0 ^ b0) by (bit_vector)
        requires
            a0 == c1 ^ (x as u16),
            b0 == c2 ^ (y as u16),
    ;
    lemma_shift_xor(a0, b0);
    let a1 = crc_shift(a0);
    let b1 = crc_shift(b0);
    lemma_shift_xor(a1, b1);
    let a2 = crc_shift(a1);
    let b2 = crc_shift(b1);
    lemma_shift_xor(a2, b2);
    let a3 = crc_shift(a2);
    let b3 = crc_shift(b2);
    lemma_shift_xor(a3, b3);
    let a4 = crc_shift(a3);
    let b4 = crc_shift(b3);
    lemma_shift_xor(a4, b4);
    let a5 = crc_shift(a4);
    let b5 = crc_shift(b4);
    lemma_shift_xor(a5, b5);
    let a6 = crc_shift(a5);
    let b6 = crc_shift(b5);
    lemma_shift_xor(a6, b6);
    let a7 = crc_shift(a6);
    let b7 = crc_shift(b6);
    lemma_shift_xor(a7, b7);
}

/// The checksum is linear: the CRC of the byte-wise xor of two sequences of
/// the same length is the xor of their CRCs (so it starts from 0 and has no
/// final xor).
pub proof fn lemma_crc16_linear(a: Seq<u8>, b: Seq<u8>)
    requires
        a.len() == b.len(),
    ensures
        crc16(xor_bytes(a, b)) == crc16(a) ^ crc16(b),
    decreases a.len(),
{
    let x = xor_bytes(a, b);
    if a.len() == 0 {
        assert(0u16 ^ 0u16 == 0u16) by (bit_vector);
    } else {
        assert(x.drop_last() =~= xor_bytes(a.drop_last(), b.drop_last()));
        lemma_crc16_linear(a.drop_last(), b.drop_last());
        lemma_update_xor(crc16(a.drop_last()), crc16(b.drop_last()), a.last(), b.last());
    }
}


proof fn lemma_shift_even(x: u16)
    ensures
        x & 1 == 0 ==> crc_shift(x) == x >> 1u16,
{
}

/// Feeding a register its own low byte leaves its high byte, moved down.
proof fn lemma_update_own_low_byte(c: u16)
    ensures
        crc_update(c, (c & 0xff) as u8) == c >> 8u16,
{
    let x0 = c ^ (((c & 0xff) as u8) as u16);
    assert(x0 == c & 0xff00u16) by (bit_vector)
        requires
            x0 == c ^ (((c & 0xff) as u8) as u16),
    ;
    assert((x0 >> 0u16) & 1 == 0 && (x0 >> 1u16) & 1 == 0 && (x0 >> 2u16) & 1 == 0 && (x0 >> 3u16)
        & 1 == 0 && (x0 >> 4u16) & 1 == 0 && (x0 >> 5u16) & 1 == 0 && (x0 >> 6u16) & 1 == 0 && (x0
        >> 7u16) & 1 == 0) by (bit_vector)
        requires
            x0 == c & 0xff00u16,
    ;
    assert(x0 >> 0u16 == x0 && (x0 >> 0u16) >> 1u16 == x0 >> 1u16 && (x0 >> 1u16) >> 1u16 == x0
        >> 2u16 && (x0 >> 2u16) >> 1u16 == x0 >> 3u16 && (x0 >> 3u16) >> 1u16 == x0 >> 4u16 && (x0
        >> 4u16) >> 1u16 == x0 >> 5u16 && (x0 >> 5u16) >> 1u16 == x0 >> 6u16 && (x0 >> 6u16) >> 1u16
        == x0 >> 7u16 && (x0 >> 7u16) >> 1u16 == x0 >> 8u16 && x0 >> 8u16 == c >> 8u16)
        by (bit_vector)
        requires
            x0 == c & 0xff00u16,
    ;
    lemma_shift_even(x0);
    lemma_shift_even(x0 >> 1u16);
    lemma_shift_even(x0 >> 2u16);
    lemma_shift_even(x0 >> 3u16);
    lemma_shift_even(x0 >> 4u16);
    lemma_shift_even(x0 >> 5u16);
    lemma_shift_even(x0 >> 6u16);
    lemma_shift_even(x0 >> 7u16);
}

/// Appending a register's value, low byte first, brings it back to zero.
proof fn lemma_update_residue(c: u16)
    ensures
        crc_update(crc_update(c, (c & 0xff) as u8), (c >> 8u16) as u8) == 0,
{
    lemma_update_own_low_byte(c);
    let h = c >> 8u16;
    assert(h ^ ((h as u8) as u16) == 0u16) by (bit_vector)
        requires
            h == c >> 8u16,
    ;
    lemma_shift_even(0u16);
    assert((0u16 >> 1u16) == 0u16 && 0u16 & 1 == 0) by (bit_vector);
}

/// The CRC of any sequence followed by its own CRC, low byte first, is 0.
pub proof fn lemma_crc16_residue(s: Seq<u8>)
    ensures
        crc16(s.push((crc16(s) & 0xff) as u8).push((crc16(s) >> 8u16) as u8)) == 0,
{
    let c = crc16(s);
    let s1 = s.push((c & 0xff) as u8);
    let s2 = s1.push((c >> 8u16) as u8);
    assert(s2.drop_last() =~= s1);
    assert(s1.drop_last() =~= s);
    assert(crc16(s1) == crc_update(c, (c & 0xff) as u8));
    assert(crc16(s2) == crc_update(crc16(s1), (c >> 8u16) as u8));
    lemma_update_residue(c);
}

fn shift(c: u16) -> (r: u16)
    ensures
        r == crc_shift(c),
{
    if c & 1 == 1 {
        (c >> 1u16) ^ 0xA001u16
    } else {
        c >> 1u16
    }
}

fn update(crc: u16, byte: u8) -> (r: u16)
    ensures
        r == crc_update(crc, byte),
{
    let mut c: u16 = crc ^ (byte as u16);
    c = shift(c);
    c = shift(c);
    c = shift(c);
    c = shift(c);
    c = shift(c);
    c = shift(c);
    c = shift(c);
    c = shift(c);
    c
}

/// The CRC-16 of `data`.
pub fn hash(data: &[u8]) -> (r: u16)
    ensures
        r == crc16(data@),
{
    let mut crc: u16 = 0;
    let mut i: usize = 0;
    while i < data.len()
        invariant
            i <= data@.len(),
            crc == crc16(data@.take(i as int)),
        decreases data@.len() - i,
    {
        proof {
            assert(data@.take(i as int + 1).drop_last() =~= data@.take(i as int));
        }
        crc = update(crc, data[i]);
        i = i + 1;
    }
    proof {
        assert(data@.take(data@.len() as int) =~= data@);
    }
    crc
}

} // verus!
