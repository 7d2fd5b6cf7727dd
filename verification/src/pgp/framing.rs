//! The framing rules of RFC 4880 that every packet shares: packet headers,
//! subpacket lengths, multiprecision integers and times.

use crate::octets::{be16, be32, extend, push_be16, push_be32};
use vstd::prelude::*;

verus! {

/// The three kinds of packet that the encoder writes.
#[derive(Clone, Copy, Debug)]
pub enum PacketHeader {
    Signature,
    PublicKey,
    UserID,
}

impl PacketHeader {
    /// The packet tag of RFC 4880.
    pub open spec fn tag(self) -> u8 {
        match self {
            PacketHeader::Signature => 0x02,
            PacketHeader::PublicKey => 0x06,
            PacketHeader::UserID => 0x0D,
        }
    }

    /// The packet tag of RFC 4880.
    pub fn tag_octet(self) -> (t: u8)
        ensures
            t == self.tag(),
    {
        match self {
            PacketHeader::Signature => 0x02,
            PacketHeader::PublicKey => 0x06,
            PacketHeader::UserID => 0x0D,
        }
    }
}

/// The old-format header of a packet whose body has `len` octets: one octet
/// with the top bit set, the tag in bits 5 to 2 and the length type in the
/// low two bits, then the length in one, two or four octets, whichever is
/// the shortest that holds it.
pub open spec fn packet_header(len: int, tag: u8) -> Seq<u8>
    recommends
        0 <= len <= u32::MAX,
        tag < 16,
{
    if len < 0x100 {
        seq![(128 + tag * 4) as u8, len as u8]
    } else if len < 0x1_0000 {
        seq![(128 + tag * 4 + 1) as u8] + be16(len)
    } else {
        seq![(128 + tag * 4 + 2) as u8] + be32(len)
    }
}

/// The header of a packet of kind `packet_type` whose body is `buffer`.
pub fn calculate_packet_header(buffer: &[u8], packet_type: PacketHeader) -> (hdr: Vec<u8>)
    requires
        buffer@.len() <= u32::MAX,
    ensures
        hdr@ == packet_header(buffer@.len() as int, packet_type.tag()),
{
    let mut hdr: Vec<u8> = Vec::new();
    let control: u8 = 128 + packet_type.tag_octet() * 4;
    let len: usize = buffer.len();
    if len < 0x100 {
        hdr.push(control);
        hdr.push(len as u8);
    } else if len < 0x1_0000 {
        hdr.push(control + 1);
        push_be16(&mut hdr, len as u16);
    } else {
        hdr.push(control + 2);
        push_be32(&mut hdr, len as u32);
    }
    proof {
        assert(hdr@ =~= packet_header(buffer@.len() as int, packet_type.tag()));
    }
    hdr
}

/// The length field of a subpacket of `len` octets, in the shortest form that
/// RFC 4880 allows: one octet below 192, two octets below 8384, and `0xFF`
/// with a four-octet length from there on.
pub open spec fn subpacket_length(len: int) -> Seq<u8>
    recommends
        0 <= len <= u32::MAX,
{
    if len < 192 {
        seq![len as u8]
    } else if len < 8384 {
        seq![((len - 192) / 256 + 192) as u8, ((len - 192) % 256) as u8]
    } else {
        seq![255u8] + be32(len)
    }
}

/// The length that a subpacket length field stands for, read as RFC 4880
/// tells a decoder to read it.
pub open spec fn subpacket_length_value(field: Seq<u8>) -> int
    recommends
        field.len() > 0,
{
    if field[0] < 192 {
        field[0] as int
    } else if field[0] < 255 {
        (field[0] - 192) * 256 + field[1] + 192
    } else {
        field[1] * 16777216 + field[2] * 65536 + field[3] * 256 + field[4]
    }
}

/// A decoder reads back the length that the encoder wrote, and the encoder
/// never writes a longer form where a shorter one would do.
pub proof fn lemma_subpacket_length(len: int)
    requires
        0 <= len <= u32::MAX,
    ensures
        subpacket_length_value(subpacket_length(len)) == len,
        subpacket_length(len).len() == if len < 192 {
            1int
        } else if len < 8384 {
            2int
        } else {
            5int
        },
        subpacket_length(len)[0] < 192 <==> len < 192,
        subpacket_length(len)[0] == 255 <==> len >= 8384,
{
}

/// Formats the length of a subpacket.
pub fn format_subpacket_length(len: usize) -> (field: Vec<u8>)
    requires
        len <= u32::MAX,
    ensures
        field@ == subpacket_length(len as int),
{
    let mut field: Vec<u8> = Vec::new();
    if len < 192 {
        field.push(len as u8);
    } else if len < 8384 {
        field.push(((len - 192) / 256 + 192) as u8);
        field.push(((len - 192) % 256) as u8);
    } else {
        field.push(255);
        push_be32(&mut field, len as u32);
    }
    proof {
        assert(field@ =~= subpacket_length(len as int));
    }
    field
}

/// The number of significant bits of one octet: the least `n` with
/// `b < 2^n`.
pub open spec fn octet_bits(b: u8) -> int {
    if b >= 128 {
        8
    } else if b >= 64 {
        7
    } else if b >= 32 {
        6
    } else if b >= 16 {
        5
    } else if b >= 8 {
        4
    } else if b >= 4 {
        3
    } else if b >= 2 {
        2
    } else if b >= 1 {
        1
    } else {
        0
    }
}

/// The bit count that stands before a multiprecision integer: the
/// significant bits of its first octet and eight for each octet after it.
pub open spec fn mpi_bits(mpi: Seq<u8>) -> int
    recommends
        mpi.len() > 0,
{
    octet_bits(mpi[0]) + 8 * (mpi.len() - 1)
}

/// Whether `value` can be written as a multiprecision integer: it has an
/// octet to count the bits of, and its bit count fits in two octets.
pub open spec fn mpi_fits(value: Seq<u8>) -> bool {
    0 < value.len() <= 8191
}

/// A multiprecision integer: the bit count in two octets, then the value.
pub open spec fn mpi(value: Seq<u8>) -> Seq<u8>
    recommends
        mpi_fits(value),
{
    be16(mpi_bits(value)) + value
}

/// Counts the bits of the multiprecision integer held in `mpi`.
pub fn get_mpi_bits(mpi: &[u8]) -> (count: u16)
    requires
        mpi_fits(mpi@),
    ensures
        count == mpi_bits(mpi@),
{
    let b: u8 = mpi[0];
    let first: u16 = if b >= 128 {
        8
    } else if b >= 64 {
        7
    } else if b >= 32 {
        6
    } else if b >= 16 {
        5
    } else if b >= 8 {
        4
    } else if b >= 4 {
        3
    } else if b >= 2 {
        2
    } else if b >= 1 {
        1
    } else {
        0
    };
    first + ((mpi.len() - 1) as u16) * 8
}

/// Whether `value` can be written as a multiprecision integer.
pub fn fits_mpi(value: &[u8]) -> (yes: bool)
    ensures
        yes == mpi_fits(value@),
{
    0 < value.len() && value.len() <= 8191
}

/// Appends `value` to `buffer` as a multiprecision integer.
pub fn format_mpi(buffer: &mut Vec<u8>, value: &[u8])
    requires
        mpi_fits(value@),
    ensures
        final(buffer)@ == old(buffer)@ + mpi(value@),
{
    let bits = get_mpi_bits(value);
    push_be16(buffer, bits);
    extend(buffer, value);
    proof {
        assert(buffer@ =~= old(buffer)@ + mpi(value@));
    }
}

/// `size - value.len()` zero octets and then `value`: a coordinate padded on
/// the left to the size of its field.
pub open spec fn left_padded(value: Seq<u8>, size: int) -> Seq<u8>
    recommends
        value.len() <= size,
{
    Seq::new((size - value.len()) as nat, |i: int| 0u8) + value
}

/// An uncompressed curve point as one multiprecision integer: the octet
/// `0x04`, then `x` and `y`, each padded to `size` octets. Its bit count is
/// that of the whole string, whose first octet has three significant bits.
pub open spec fn ec_point(x: Seq<u8>, y: Seq<u8>, size: int) -> Seq<u8>
    recommends
        x.len() <= size,
        y.len() <= size,
        size <= 4095,
{
    be16(3 + 16 * size) + seq![4u8] + left_padded(x, size) + left_padded(y, size)
}

/// Appends `value`, padded on the left with zero octets to `size` octets.
pub fn push_left_padded(buffer: &mut Vec<u8>, value: &[u8], size: usize)
    requires
        value@.len() <= size,
    ensures
        final(buffer)@ == old(buffer)@ + left_padded(value@, size as int),
{
    let pad: usize = size - value.len();
    let mut i: usize = 0;
    while i < pad
        invariant
            i <= pad,
            buffer@ == old(buffer)@ + Seq::new(i as nat, |k: int| 0u8),
        decreases pad - i,
    {
        buffer.push(0);
        proof {
            assert(buffer@ =~= old(buffer)@ + Seq::new((i + 1) as nat, |k: int| 0u8));
        }
        i = i + 1;
    }
    extend(buffer, value);
    proof {
        assert(buffer@ =~= old(buffer)@ + left_padded(value@, size as int));
    }
}

/// Appends to `buffer` the curve point `(x, y)` of a curve whose field has
/// `size` octets, formatted as a multiprecision integer.
pub fn format_ec_point(buffer: &mut Vec<u8>, x: &[u8], y: &[u8], size: usize)
    requires
        x@.len() <= size,
        y@.len() <= size,
        size <= 4095,
    ensures
        final(buffer)@ == old(buffer)@ + ec_point(x@, y@, size as int),
{
    let length: u16 = (3 + 16 * size) as u16;
    push_be16(buffer, length);
    buffer.push(4);
    push_left_padded(buffer, x, size);
    push_left_padded(buffer, y, size);
    proof {
        assert(buffer@ =~= old(buffer)@ + ec_point(x@, y@, size as int));
    }
}

/// A time in seconds as the four-octet field of OpenPGP: its low 32 bits,
/// most significant octet first.
pub open spec fn time_field(seconds: u64) -> Seq<u8> {
    be32(seconds as int % 0x1_0000_0000)
}

/// The four octets of a time since the epoch, most significant first.
pub fn duration_to_bytes(seconds: u64) -> (field: Vec<u8>)
    ensures
        field@ == time_field(seconds),
{
    let mut field: Vec<u8> = Vec::new();
    push_be32(&mut field, (seconds % 0x1_0000_0000) as u32);
    proof {
        assert(field@ =~= time_field(seconds));
    }
    field
}

} // verus!
