//! CRC-24 as OpenPGP armor uses it: generator `0x1864CFB`, register
//! initialised to `0xB704CE`, octets taken most significant bit first.

use vstd::prelude::*;

verus! {

/// Initial value of the register.
pub const CRC24_INIT: u32 = 0xB704CE;

/// The generator polynomial, bit 24 included.
pub const CRC24_POLY: u32 = 0x1864CFB;

/// One shift of the register: the register moves left by one bit and the
/// generator is subtracted when a bit leaves the low 24.
pub open spec fn crc24_shift(crc: u32) -> u32 {
    let s = crc << 1;
    if s & 0x1000000 != 0 {
        s ^ CRC24_POLY
    } else {
        s
    }
}

/// The register after one more octet.
pub open spec fn crc24_update(crc: u32, octet: u8) -> u32 {
    crc24_shift(
        crc24_shift(
            crc24_shift(
                crc24_shift(
                    crc24_shift(
                        crc24_shift(crc24_shift(crc24_shift(crc ^ ((octet as u32) << 16)))),
                    ),
                ),
            ),
        ),
    )
}

/// The register after all of `data`.
pub open spec fn crc24_register(data: Seq<u8>) -> u32
    decreases data.len(),
{
    if data.len() == 0 {
        CRC24_INIT
    } else {
        crc24_update(crc24_register(data.drop_last()), data.last())
    }
}

/// The CRC-24 of `data`: the low 24 bits of the register.
pub open spec fn crc24(data: Seq<u8>) -> u32 {
    crc24_register(data) & 0xFFFFFF
}

/// A 24-bit value as three octets, most significant first.
pub open spec fn octets24(v: u32) -> Seq<u8> {
    seq![(v / 65536 % 256) as u8, (v / 256 % 256) as u8, (v % 256) as u8]
}

fn shift(crc: u32) -> (out: u32)
    ensures
        out == crc24_shift(crc),
{
    let s: u32 = crc << 1;
    if s & 0x1000000 != 0 {
        s ^ CRC24_POLY
    } else {
        s
    }
}

fn update(crc: u32, octet: u8) -> (out: u32)
    ensures
        out == crc24_update(crc, octet),
{
    let mut r: u32 = crc ^ ((octet as u32) << 16);
    r = shift(r);
    r = shift(r);
    r = shift(r);
    r = shift(r);
    r = shift(r);
    r = shift(r);
    r = shift(r);
    r = shift(r);
    r
}

/// Computes the CRC-24 of `buffer`.
pub fn crc24_checksum(buffer: &[u8]) -> (sum: u32)
    ensures
        sum == crc24(buffer@),
        sum < 0x1000000,
{
    let mut crc: u32 = CRC24_INIT;
    let mut i: usize = 0;
    while i < buffer.len()
        invariant
            i <= buffer.len(),
            crc == crc24_register(buffer@.take(i as int)),
        decreases buffer.len() - i,
    {
        proof {
            let next = buffer@.take(i + 1);
            assert(next.drop_last() =~= buffer@.take(i as int));
            assert(next.last() == buffer@[i as int]);
        }
        crc = update(crc, buffer[i]);
        i = i + 1;
    }
    proof {
        assert(buffer@.take(buffer.len() as int) =~= buffer@);
    }
    let sum: u32 = crc & 0xFFFFFF;
    assert(crc & 0xFFFFFF < 0x1000000) by (bit_vector);
    sum
}

/// The three octets of a 24-bit checksum, most significant first.
pub fn checksum_octets(sum: u32) -> (out: Vec<u8>)
    requires
        sum < 0x1000000,
    ensures
        out@ == octets24(sum),
{
    let mut out: Vec<u8> = Vec::new();
    out.push((sum / 65536 % 256) as u8);
    out.push((sum / 256 % 256) as u8);
    out.push((sum % 256) as u8);
    out
}

} // verus!
