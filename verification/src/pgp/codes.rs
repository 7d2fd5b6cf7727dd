//! The one-octet codes of RFC 4880 and RFC 6637 that the encoder writes.

use vstd::prelude::*;

verus! {

/// Packet version.
#[derive(Clone, Copy, Debug)]
pub enum Version {
    V4,
}

impl Version {
    pub open spec fn code(self) -> u8 {
        4
    }

    pub fn octet(self) -> (c: u8)
        ensures
            c == self.code(),
    {
        4
    }
}

/// Signature type.
#[derive(Clone, Copy, Debug)]
pub enum SigType {
    /// Signature of a binary document.
    Binary,
    /// Positive certification of a user ID and public-key packet.
    UserIDPKCert,
}

impl SigType {
    pub open spec fn code(self) -> u8 {
        match self {
            SigType::Binary => 0x00,
            SigType::UserIDPKCert => 0x10,
        }
    }

    pub fn octet(self) -> (c: u8)
        ensures
            c == self.code(),
    {
        match self {
            SigType::Binary => 0x00,
            SigType::UserIDPKCert => 0x10,
        }
    }
}

/// Public-key algorithm.
#[derive(Clone, Copy, Debug)]
pub enum PublicKeyAlgorithm {
    RSASE,
    ECDSA,
}

impl PublicKeyAlgorithm {
    pub open spec fn code(self) -> u8 {
        match self {
            PublicKeyAlgorithm::RSASE => 0x01,
            PublicKeyAlgorithm::ECDSA => 0x13,
        }
    }

    pub fn octet(self) -> (c: u8)
        ensures
            c == self.code(),
    {
        match self {
            PublicKeyAlgorithm::RSASE => 0x01,
            PublicKeyAlgorithm::ECDSA => 0x13,
        }
    }
}

/// Hash algorithm.
#[allow(non_camel_case_types)]
#[derive(Clone, Copy, Debug)]
pub enum HashAlgo {
    SHA2_256,
    SHA2_384,
    SHA2_512,
    SHA2_224,
}

impl HashAlgo {
    pub open spec fn code(self) -> u8 {
        match self {
            HashAlgo::SHA2_256 => 8,
            HashAlgo::SHA2_384 => 9,
            HashAlgo::SHA2_512 => 10,
            HashAlgo::SHA2_224 => 11,
        }
    }

    pub fn octet(self) -> (c: u8)
        ensures
            c == self.code(),
    {
        match self {
            HashAlgo::SHA2_256 => 8,
            HashAlgo::SHA2_384 => 9,
            HashAlgo::SHA2_512 => 10,
            HashAlgo::SHA2_224 => 11,
        }
    }
}

/// Symmetric cipher.
#[derive(Clone, Copy, Debug)]
pub enum SymmetricAlgos {
    TripleDES,
    AES128,
    AES192,
    AES256,
}

impl SymmetricAlgos {
    pub open spec fn code(self) -> u8 {
        match self {
            SymmetricAlgos::TripleDES => 0x02,
            SymmetricAlgos::AES128 => 0x07,
            SymmetricAlgos::AES192 => 0x08,
            SymmetricAlgos::AES256 => 0x09,
        }
    }

    pub fn octet(self) -> (c: u8)
        ensures
            c == self.code(),
    {
        match self {
            SymmetricAlgos::TripleDES => 0x02,
            SymmetricAlgos::AES128 => 0x07,
            SymmetricAlgos::AES192 => 0x08,
            SymmetricAlgos::AES256 => 0x09,
        }
    }
}

/// Compression algorithm.
#[derive(Clone, Copy, Debug)]
pub enum CompressionAlgos {
    ZIP,
    ZLIB,
    BZip2,
}

impl CompressionAlgos {
    pub open spec fn code(self) -> u8 {
        match self {
            CompressionAlgos::ZIP => 0x01,
            CompressionAlgos::ZLIB => 0x02,
            CompressionAlgos::BZip2 => 0x03,
        }
    }

    pub fn octet(self) -> (c: u8)
        ensures
            c == self.code(),
    {
        match self {
            CompressionAlgos::ZIP => 0x01,
            CompressionAlgos::ZLIB => 0x02,
            CompressionAlgos::BZip2 => 0x03,
        }
    }
}

/// Key flags.
#[derive(Clone, Copy, Debug)]
pub enum KeyFlags {
    CanSign,
}

impl KeyFlags {
    pub open spec fn code(self) -> u8 {
        0x02
    }

    pub fn octet(self) -> (c: u8)
        ensures
            c == self.code(),
    {
        0x02
    }
}

/// Signature subpacket type.
#[derive(Clone, Copy, Debug)]
pub enum SigSubpacketID {
    CreationTime,
    PreferredSymmetricAlgos,
    KeyID,
    PreferredHashAlgos,
    PreferredCompressionAlgos,
    KeyServerPreference,
    KeyFlags,
    IssuerFingerprint,
}

impl SigSubpacketID {
    pub open spec fn code(self) -> u8 {
        match self {
            SigSubpacketID::CreationTime => 0x02,
            SigSubpacketID::PreferredSymmetricAlgos => 0x0b,
            SigSubpacketID::KeyID => 0x10,
            SigSubpacketID::PreferredHashAlgos => 0x15,
            SigSubpacketID::PreferredCompressionAlgos => 0x16,
            SigSubpacketID::KeyServerPreference => 0x17,
            SigSubpacketID::KeyFlags => 0x1b,
            SigSubpacketID::IssuerFingerprint => 0x21,
        }
    }

    pub fn octet(self) -> (c: u8)
        ensures
            c == self.code(),
    {
        match self {
            SigSubpacketID::CreationTime => 0x02,
            SigSubpacketID::PreferredSymmetricAlgos => 0x0b,
            SigSubpacketID::KeyID => 0x10,
            SigSubpacketID::PreferredHashAlgos => 0x15,
            SigSubpacketID::PreferredCompressionAlgos => 0x16,
            SigSubpacketID::KeyServerPreference => 0x17,
            SigSubpacketID::KeyFlags => 0x1b,
            SigSubpacketID::IssuerFingerprint => 0x21,
        }
    }
}

/// The curves that RFC 6637 and its successors name.
#[derive(Clone, Copy, Debug)]
pub enum CurveOID {
    P256,
    P384,
    P521,
    BrainpoolP256r1,
    BrainpoolP512r1,
    Ed25519,
    Curve25519,
    Secp256k1,
}

impl CurveOID {
    /// The object identifier of the curve as the packet holds it, without
    /// its length octet.
    pub open spec fn oid(self) -> Seq<u8> {
        match self {
            CurveOID::P256 => seq![0x2Au8, 0x86, 0x48, 0xCE, 0x3D, 0x03, 0x01, 0x07],
            CurveOID::P384 => seq![0x2Bu8, 0x81, 0x04, 0x00, 0x22],
            CurveOID::P521 => seq![0x2Bu8, 0x81, 0x04, 0x00, 0x23],
            CurveOID::BrainpoolP256r1 => seq![
                0x2Bu8, 0x24, 0x03, 0x03, 0x02, 0x08, 0x01, 0x01, 0x07,
            ],
            CurveOID::BrainpoolP512r1 => seq![0x24u8, 0x03, 0x03, 0x02, 0x08, 0x01, 0x01, 0x0D],
            CurveOID::Ed25519 => seq![0x2Bu8, 0x06, 0x01, 0x04, 0x01, 0xDA, 0x47, 0x0F, 0x01],
            CurveOID::Curve25519 => seq![
                0x2Bu8, 0x06, 0x01, 0x04, 0x01, 0x97, 0x55, 0x01, 0x05, 0x01,
            ],
            CurveOID::Secp256k1 => seq![0x2Bu8, 0x81, 0x04, 0x00, 0x0A],
        }
    }

    /// The size in octets of one coordinate of a point of the curve.
    pub open spec fn field_size(self) -> int {
        match self {
            CurveOID::P256 => 32,
            CurveOID::P384 => 48,
            CurveOID::P521 => 66,
            CurveOID::BrainpoolP256r1 => 32,
            CurveOID::BrainpoolP512r1 => 64,
            CurveOID::Ed25519 => 32,
            CurveOID::Curve25519 => 32,
            CurveOID::Secp256k1 => 32,
        }
    }

    /// The object identifier of the curve.
    pub fn oid_octets(self) -> (out: Vec<u8>)
        ensures
            out@ == self.oid(),
            out@.len() <= 10,
    {
        let out: Vec<u8> = match self {
            CurveOID::P256 => vec![0x2Au8, 0x86, 0x48, 0xCE, 0x3D, 0x03, 0x01, 0x07],
            CurveOID::P384 => vec![0x2Bu8, 0x81, 0x04, 0x00, 0x22],
            CurveOID::P521 => vec![0x2Bu8, 0x81, 0x04, 0x00, 0x23],
            CurveOID::BrainpoolP256r1 => vec![
                0x2Bu8, 0x24, 0x03, 0x03, 0x02, 0x08, 0x01, 0x01, 0x07,
            ],
            CurveOID::BrainpoolP512r1 => vec![0x24u8, 0x03, 0x03, 0x02, 0x08, 0x01, 0x01, 0x0D],
            CurveOID::Ed25519 => vec![0x2Bu8, 0x06, 0x01, 0x04, 0x01, 0xDA, 0x47, 0x0F, 0x01],
            CurveOID::Curve25519 => vec![
                0x2Bu8, 0x06, 0x01, 0x04, 0x01, 0x97, 0x55, 0x01, 0x05, 0x01,
            ],
            CurveOID::Secp256k1 => vec![0x2Bu8, 0x81, 0x04, 0x00, 0x0A],
        };
        assert(out@ =~= self.oid());
        out
    }

    /// The size in octets of one coordinate of a point of the curve.
    pub fn coordinate_size(self) -> (size: usize)
        ensures
            size == self.field_size(),
    {
        match self {
            CurveOID::P256 => 32,
            CurveOID::P384 => 48,
            CurveOID::P521 => 66,
            CurveOID::BrainpoolP256r1 => 32,
            CurveOID::BrainpoolP512r1 => 64,
            CurveOID::Ed25519 => 32,
            CurveOID::Curve25519 => 32,
            CurveOID::Secp256k1 => 32,
        }
    }
}

} // verus!
