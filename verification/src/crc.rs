//! Table-driven 16-bit checksum over a byte sequence, as used by the serial
//! framing layer.

use vstd::prelude::*;

verus! {

/// Reversed polynomial for least-significant-bit-first calculation.
pub const POLYNOMIAL: u16 = 0xA001;

/// One shift-and-conditionally-xor round of the table construction.
pub open spec fn crc_shift(c: u16) -> u16 {
    if c & 0x0001 != 0 {
        (c >> 1) ^ POLYNOMIAL
    } else {
        c >> 1
    }
}

/// `n` further shift rounds applied to `c`.
pub open spec fn crc_rounds(c: u16, n: nat) -> u16
    decreases n,
{
    if n == 0 {
        c
    } else {
        crc_rounds(crc_shift(c), (n - 1) as nat)
    }
}

/// Entry `i` of the 256-entry lookup table: eight shift rounds on `i`.
pub open spec fn table_entry(i: u16) -> u16 {
    crc_rounds(i, 8)
}

/// The running accumulator folded with one more input byte.
pub open spec fn crc_update(c: u16, b: u8) -> u16 {
    (c >> 8) ^ table_entry((c ^ (b as u16)) & 0xFF)
}

/// The checksum of a whole byte sequence: the accumulator starts at 0xFFFF
/// and folds the bytes in order.
pub open spec fn crc16_spec(s: Seq<u8>) -> u16
    decreases s.len(),
{
    if s.len() == 0 {
        0xFFFF
    } else {
        crc_update(crc16_spec(s.drop_last()), s.last())
    }
}

/// Builds the 256-entry lookup table from the fixed reversed polynomial.
pub fn gen_lookup_table() -> (table: Vec<u16>)
    ensures
        table@.len() == 256,
        forall|i: int| 0 <= i < 256 ==> table@[i] == table_entry(i as u16),
{
    let mut table: Vec<u16> = Vec::new();
    let mut i: usize = 0;
    while i < 256
        invariant
            i <= 256,
            table@.len() == i,
            forall|k: int| 0 <= k < i ==> table@[k] == table_entry(k as u16),
        decreases 256 - i,
    {
        let mut c: u16 = i as u16;
        let mut j: usize = 0;
        while j < 8
            invariant
                j <= 8,
                crc_rounds(c, (8 - j) as nat) == table_entry(i as u16),
            decreases 8 - j,
        {
            if (c & 0x0001) != 0 {
                c >>= 1;
                c ^= POLYNOMIAL;
            } else {
                c >>= 1;
            }
            j += 1;
        }
        table.push(c);
        i += 1;
    }
    table
}

/// Computes the checksum of `buf`.
pub fn crc16(buf: &[u8]) -> (r: u16)
    ensures
        r == crc16_spec(buf@),
{
    let table = gen_lookup_table();
    let mut c: u16 = 0xFFFF;
    let mut i: usize = 0;
    while i < buf.len()
        invariant
            i <= buf@.len(),
            table@.len() == 256,
            forall|k: int| 0 <= k < 256 ==> table@[k] == table_entry(k as u16),
            c == crc16_spec(buf@.take(i as int)),
        decreases buf@.len() - i,
    {
        let b = buf[i];
        let ix = (c ^ (b as u16)) & 0xFF;
        proof {
            assert(((c ^ (b as u16)) & 0xFF) < 256) by (bit_vector);
            assert(buf@.take(i + 1).drop_last() =~= buf@.take(i as int));
            assert(buf@.take(i + 1).last() == buf@[i as int]);
        }
        c = (c >> 8) ^ table[ix as usize];
        i += 1;
    }
    proof {
        assert(buf@.take(buf@.len() as int) =~= buf@);
    }
    c
}

} // verus!
