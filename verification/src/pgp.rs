//! The OpenPGP encoder: public-key, user-ID and signature packets in their
//! raw, formatted and hashable forms.

pub mod codes;
pub mod framing;
pub mod message;
pub mod packet;
pub mod subpacket;

pub use crate::armor::armor_binary_output;
pub use crate::flow::encode_sig_data;
pub use crate::hashes::sha512_hash;
pub use crate::radix64::binary_to_radix64;
pub use codes::{
    CompressionAlgos, CurveOID, HashAlgo, KeyFlags, PublicKeyAlgorithm, SigSubpacketID, SigType,
    SymmetricAlgos, Version,
};
pub use framing::{
    calculate_packet_header, duration_to_bytes, format_ec_point, format_subpacket_length,
    get_mpi_bits, PacketHeader,
};
pub use message::{Message, Packet};
pub use packet::{PKPacket, PartialSignature, PublicKey, Signature, SignatureData, UserID};
pub use subpacket::{HSigSubpacket, SigSubpacket};
use vstd::prelude::*;

verus! {

/// The three forms in which an OpenPGP object is written. They differ as
/// RFC 4880 demands: the raw form is the body alone, the formatted form is
/// what goes on the wire, and the hashable form is what a signature over the
/// object digests.
pub trait ToPGPBytes {
    /// Whether every length of the object fits the field that has to hold it.
    spec fn encodable(&self) -> bool;

    /// The body, without a header.
    spec fn raw_bytes(&self) -> Seq<u8>;

    /// The wire form, header included.
    spec fn formatted_bytes(&self) -> Seq<u8>;

    /// The form that is fed to the digest.
    spec fn hashable_bytes(&self) -> Seq<u8>;

    /// Tests whether the object can be written.
    fn is_encodable(&self) -> (yes: bool)
        ensures
            yes == self.encodable(),
    ;

    /// Writes the body, without a header.
    fn to_raw_bytes(&self) -> (out: Vec<u8>)
        requires
            self.encodable(),
        ensures
            out@ == self.raw_bytes(),
    ;

    /// Writes the wire form, header included.
    fn to_formatted_bytes(&self) -> (out: Vec<u8>)
        requires
            self.encodable(),
        ensures
            out@ == self.formatted_bytes(),
    ;

    /// Writes the form that is fed to the digest.
    fn to_hashable_bytes(&self) -> (out: Vec<u8>)
        requires
            self.encodable(),
        ensures
            out@ == self.hashable_bytes(),
    ;
}

} // verus!
