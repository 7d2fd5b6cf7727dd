//! The packets: public key, user ID and signature, and the signature that
//! still waits for its value.

use crate::hashes::{sha160_hash, sha1_digest};
use crate::octets::{be16, be32, extend, push_be16, push_be32};
use crate::pgp::codes::{CurveOID, HashAlgo, PublicKeyAlgorithm, SigType, Version};
use crate::pgp::framing::{
    calculate_packet_header, duration_to_bytes, ec_point, fits_mpi, format_ec_point, format_mpi,
    left_padded, mpi, mpi_fits, packet_header, time_field, PacketHeader,
};
use crate::pgp::subpacket::{
    hashed_area, hashed_views, subpacket_bytes, subpacket_fits, subpackets_bytes, subpackets_fit,
    unhashed_area, unhashed_views, HSigSubpacket, SigSubpacket, Subpacket,
};
use crate::pgp::ToPGPBytes;
use crate::utils::stamp;
use vstd::prelude::*;
use vstd::string::*;
use vstd::utf8::encode_utf8;

verus! {

/// The value of a signature.
pub enum SignatureData {
    /// The pair `(r, s)` of an ECDSA signature, each most significant octet
    /// first.
    ECDSA(Vec<u8>, Vec<u8>),
}

impl View for SignatureData {
    type V = (Seq<u8>, Seq<u8>);

    open spec fn view(&self) -> (Seq<u8>, Seq<u8>) {
        match self {
            SignatureData::ECDSA(r, s) => (r@, s@),
        }
    }
}

/// The value `(r, s)` as written: two multiprecision integers.
pub open spec fn signature_data_bytes(v: (Seq<u8>, Seq<u8>)) -> Seq<u8> {
    mpi(v.0) + mpi(v.1)
}

impl ToPGPBytes for SignatureData {
    open spec fn encodable(&self) -> bool {
        mpi_fits(self@.0) && mpi_fits(self@.1)
    }

    open spec fn raw_bytes(&self) -> Seq<u8> {
        signature_data_bytes(self@)
    }

    open spec fn formatted_bytes(&self) -> Seq<u8> {
        signature_data_bytes(self@)
    }

    open spec fn hashable_bytes(&self) -> Seq<u8> {
        signature_data_bytes(self@)
    }

    fn is_encodable(&self) -> (yes: bool) {
        match self {
            SignatureData::ECDSA(r, s) => fits_mpi(r.as_slice()) && fits_mpi(s.as_slice()),
        }
    }

    fn to_formatted_bytes(&self) -> (out: Vec<u8>) {
        let mut out: Vec<u8> = Vec::new();
        match self {
            SignatureData::ECDSA(r, s) => {
                format_mpi(&mut out, r.as_slice());
                format_mpi(&mut out, s.as_slice());
            },
        }
        out
    }

    fn to_raw_bytes(&self) -> (out: Vec<u8>) {
        self.to_formatted_bytes()
    }

    fn to_hashable_bytes(&self) -> (out: Vec<u8>) {
        self.to_formatted_bytes()
    }
}

/// The material of a public key.
pub enum PublicKey<'a> {
    /// A point `(x, y)` of the named curve.
    ECDSA(CurveOID, &'a [u8], &'a [u8]),
    /// The modulus `n` and the exponent `e`.
    RSA(&'a [u8], &'a [u8]),
}

/// What a public key holds.
pub enum PublicKeyView {
    ECDSA(CurveOID, Seq<u8>, Seq<u8>),
    RSA(Seq<u8>, Seq<u8>),
}

impl<'a> View for PublicKey<'a> {
    type V = PublicKeyView;

    open spec fn view(&self) -> PublicKeyView {
        match self {
            PublicKey::ECDSA(oid, x, y) => PublicKeyView::ECDSA(*oid, x@, y@),
            PublicKey::RSA(n, e) => PublicKeyView::RSA(n@, e@),
        }
    }
}

/// Whether the key material can be written: the coordinates of a point are
/// no longer than the field of its curve, the integers of an RSA key fit a
/// multiprecision integer.
pub open spec fn public_key_fits(k: PublicKeyView) -> bool {
    match k {
        PublicKeyView::ECDSA(oid, x, y) => x.len() <= oid.field_size() && y.len()
            <= oid.field_size(),
        PublicKeyView::RSA(n, e) => mpi_fits(n) && mpi_fits(e),
    }
}

/// The key material as written: for a curve point the length of the curve
/// identifier, the identifier and the point; for RSA the two integers.
pub open spec fn public_key_bytes(k: PublicKeyView) -> Seq<u8> {
    match k {
        PublicKeyView::ECDSA(oid, x, y) => seq![oid.oid().len() as u8] + oid.oid() + ec_point(
            x,
            y,
            oid.field_size(),
        ),
        PublicKeyView::RSA(n, e) => mpi(n) + mpi(e),
    }
}

/// The public-key algorithm that the key material belongs to.
pub open spec fn public_key_algorithm(k: PublicKeyView) -> PublicKeyAlgorithm {
    match k {
        PublicKeyView::ECDSA(_, _, _) => PublicKeyAlgorithm::ECDSA,
        PublicKeyView::RSA(_, _) => PublicKeyAlgorithm::RSASE,
    }
}

impl<'a> ToPGPBytes for PublicKey<'a> {
    open spec fn encodable(&self) -> bool {
        public_key_fits(self@)
    }

    open spec fn raw_bytes(&self) -> Seq<u8> {
        public_key_bytes(self@)
    }

    open spec fn formatted_bytes(&self) -> Seq<u8> {
        public_key_bytes(self@)
    }

    open spec fn hashable_bytes(&self) -> Seq<u8> {
        public_key_bytes(self@)
    }

    fn is_encodable(&self) -> (yes: bool) {
        match self {
            PublicKey::ECDSA(oid, x, y) => {
                let size = oid.coordinate_size();
                x.len() <= size && y.len() <= size
            },
            PublicKey::RSA(n, e) => fits_mpi(n) && fits_mpi(e),
        }
    }

    fn to_raw_bytes(&self) -> (out: Vec<u8>) {
        let mut out: Vec<u8> = Vec::new();
        match self {
            PublicKey::ECDSA(oid, x, y) => {
                let id = oid.oid_octets();
                out.push(id.len() as u8);
                extend(&mut out, id.as_slice());
                format_ec_point(&mut out, x, y, oid.coordinate_size());
            },
            PublicKey::RSA(n, e) => {
                format_mpi(&mut out, n);
                format_mpi(&mut out, e);
            },
        }
        proof {
            assert(out@ =~= public_key_bytes(self@));
        }
        out
    }

    fn to_formatted_bytes(&self) -> (out: Vec<u8>) {
        self.to_raw_bytes()
    }

    fn to_hashable_bytes(&self) -> (out: Vec<u8>) {
        self.to_raw_bytes()
    }
}

/// A version 4 public-key packet.
pub struct PKPacket<'a> {
    pub version: Version,
    /// When the key was made, in seconds since the epoch.
    pub creation_time: u64,
    pub days_until_expiration: u16,
    pub public_key: PublicKey<'a>,
}

/// What a public-key packet holds.
pub struct KeyView {
    pub creation_time: u64,
    pub key: PublicKeyView,
}

impl<'a> View for PKPacket<'a> {
    type V = KeyView;

    open spec fn view(&self) -> KeyView {
        KeyView { creation_time: self.creation_time, key: self.public_key@ }
    }
}

/// The body of a public-key packet: version 4, the creation time, the
/// algorithm and the key material.
pub open spec fn key_packet_body(k: KeyView) -> Seq<u8> {
    seq![Version::V4.code()] + time_field(k.creation_time) + seq![
        public_key_algorithm(k.key).code(),
    ] + public_key_bytes(k.key)
}

/// What a signature over the key digests: `0x99`, the length of the body in
/// two octets, the body.
pub open spec fn key_packet_hashable(k: KeyView) -> Seq<u8> {
    seq![0x99u8] + be16(key_packet_body(k).len() as int) + key_packet_body(k)
}

/// The version 4 fingerprint of the key: the SHA-1 digest of its hashable
/// form.
pub open spec fn fingerprint_of(k: KeyView) -> Seq<u8> {
    sha1_digest(key_packet_hashable(k))
}

/// The key ID of the key: the last eight octets of its fingerprint.
pub open spec fn keyid_of(k: KeyView) -> Seq<u8> {
    fingerprint_of(k).subrange(fingerprint_of(k).len() - 8, fingerprint_of(k).len() as int)
}

/// The body of a key that can be written has a length that two octets hold.
pub proof fn lemma_key_packet_body_len(k: KeyView)
    requires
        public_key_fits(k.key),
    ensures
        key_packet_body(k).len() <= 16392,
{
    match k.key {
        PublicKeyView::ECDSA(oid, x, y) => {
            assert(left_padded(x, oid.field_size()).len() == oid.field_size());
            assert(left_padded(y, oid.field_size()).len() == oid.field_size());
        },
        PublicKeyView::RSA(n, e) => {},
    }
}

impl<'a> PKPacket<'a> {
    /// A packet for `public_key`, made at `time`; made now where `time` is
    /// `None`.
    pub fn new(public_key: PublicKey<'a>, time: Option<u64>) -> (packet: PKPacket<'a>)
        ensures
            packet@.key == public_key@,
            time matches Some(t) ==> packet@.creation_time == t,
    {
        PKPacket {
            version: Version::V4,
            creation_time: stamp(time),
            days_until_expiration: 0,
            public_key,
        }
    }

    /// The key ID: the last eight octets of the fingerprint.
    pub fn keyid(&self) -> (id: Vec<u8>)
        requires
            self.encodable(),
        ensures
            id@ == keyid_of(self@),
            id@.len() == 8,
            id@ == fingerprint_of(self@).subrange(12, 20),
    {
        let hash = sha160_hash(self.to_hashable_bytes().as_slice());
        let len = hash.len();
        let mut id: Vec<u8> = Vec::new();
        extend(&mut id, vstd::slice::slice_subrange(hash.as_slice(), len - 8, len));
        id
    }

    /// The version 4 fingerprint, twenty octets.
    pub fn fingerprint(&self) -> (print: Vec<u8>)
        requires
            self.encodable(),
        ensures
            print@ == fingerprint_of(self@),
            print@.len() == 20,
    {
        sha160_hash(self.to_hashable_bytes().as_slice())
    }
}

impl<'a> ToPGPBytes for PKPacket<'a> {
    open spec fn encodable(&self) -> bool {
        public_key_fits(self@.key)
    }

    open spec fn raw_bytes(&self) -> Seq<u8> {
        key_packet_body(self@)
    }

    open spec fn formatted_bytes(&self) -> Seq<u8> {
        packet_header(key_packet_body(self@).len() as int, PacketHeader::PublicKey.tag())
            + key_packet_body(self@)
    }

    open spec fn hashable_bytes(&self) -> Seq<u8> {
        key_packet_hashable(self@)
    }

    fn is_encodable(&self) -> (yes: bool) {
        self.public_key.is_encodable()
    }

    fn to_raw_bytes(&self) -> (out: Vec<u8>) {
        let mut out: Vec<u8> = vec![self.version.octet()];
        let time = duration_to_bytes(self.creation_time);
        extend(&mut out, time.as_slice());
        out.push(
            match self.public_key {
                PublicKey::ECDSA(_, _, _) => PublicKeyAlgorithm::ECDSA,
                PublicKey::RSA(_, _) => PublicKeyAlgorithm::RSASE,
            }.octet(),
        );
        let key = self.public_key.to_raw_bytes();
        extend(&mut out, key.as_slice());
        proof {
            assert(out@ =~= key_packet_body(self@));
        }
        out
    }

    fn to_formatted_bytes(&self) -> (out: Vec<u8>) {
        let body = self.to_raw_bytes();
        proof {
            lemma_key_packet_body_len(self@);
        }
        let mut out = calculate_packet_header(body.as_slice(), PacketHeader::PublicKey);
        extend(&mut out, body.as_slice());
        out
    }

    fn to_hashable_bytes(&self) -> (out: Vec<u8>) {
        let body = self.to_raw_bytes();
        proof {
            lemma_key_packet_body_len(self@);
        }
        let mut out: Vec<u8> = vec![0x99u8];
        push_be16(&mut out, body.len() as u16);
        extend(&mut out, body.as_slice());
        proof {
            assert(out@ =~= key_packet_hashable(self@));
        }
        out
    }
}

/// A user ID: a name and a mail address.
pub struct UserID {
    pub user: String,
    pub email: String,
}

/// What a user ID holds.
pub struct UserIDView {
    pub user: Seq<char>,
    pub email: Seq<char>,
}

impl View for UserID {
    type V = UserIDView;

    open spec fn view(&self) -> UserIDView {
        UserIDView { user: self.user@, email: self.email@ }
    }
}

/// The body of a user-ID packet: the UTF-8 text `user <email>`.
pub open spec fn user_id_body(u: UserIDView) -> Seq<u8> {
    encode_utf8(u.user) + seq![32u8, 60u8] + encode_utf8(u.email) + seq![62u8]
}

/// Whether the length of the body fits the four octets that hold it.
pub open spec fn user_id_fits(u: UserIDView) -> bool {
    user_id_body(u).len() <= u32::MAX
}

/// What a certification of the user ID digests: `0xB4`, the length of the
/// body in four octets, the body.
pub open spec fn user_id_hashable(u: UserIDView) -> Seq<u8> {
    seq![0xB4u8] + be32(user_id_body(u).len() as int) + user_id_body(u)
}

impl ToPGPBytes for UserID {
    open spec fn encodable(&self) -> bool {
        user_id_fits(self@)
    }

    open spec fn raw_bytes(&self) -> Seq<u8> {
        user_id_body(self@)
    }

    open spec fn formatted_bytes(&self) -> Seq<u8> {
        packet_header(user_id_body(self@).len() as int, PacketHeader::UserID.tag())
            + user_id_body(self@)
    }

    open spec fn hashable_bytes(&self) -> Seq<u8> {
        user_id_hashable(self@)
    }

    fn is_encodable(&self) -> (yes: bool) {
        let user = self.user.as_str().as_bytes();
        let email = self.email.as_str().as_bytes();
        user.len() <= 0xFFFF_FFFC && email.len() <= 0xFFFF_FFFC - user.len()
    }

    fn to_raw_bytes(&self) -> (out: Vec<u8>) {
        let mut out: Vec<u8> = Vec::new();
        extend(&mut out, self.user.as_str().as_bytes());
        out.push(32);
        out.push(60);
        extend(&mut out, self.email.as_str().as_bytes());
        out.push(62);
        proof {
            assert(out@ =~= user_id_body(self@));
        }
        out
    }

    fn to_formatted_bytes(&self) -> (out: Vec<u8>) {
        let body = self.to_raw_bytes();
        let mut out = calculate_packet_header(body.as_slice(), PacketHeader::UserID);
        extend(&mut out, body.as_slice());
        out
    }

    fn to_hashable_bytes(&self) -> (out: Vec<u8>) {
        let body = self.to_raw_bytes();
        let mut out: Vec<u8> = vec![0xB4u8];
        push_be32(&mut out, body.len() as u32);
        extend(&mut out, body.as_slice());
        proof {
            assert(out@ =~= user_id_hashable(self@));
        }
        out
    }
}

/// The fields of a signature that are known before its value is: all that
/// the signature digests of itself.
pub struct PartialSignature {
    pub version: Version,
    pub sigtype: SigType,
    pub pubkey_algo: PublicKeyAlgorithm,
    pub hash_algo: HashAlgo,
    pub subpackets: Vec<HSigSubpacket>,
}

/// What a signature holds before its value is known.
pub struct PartialView {
    pub sigtype: SigType,
    pub pubkey_algo: PublicKeyAlgorithm,
    pub hash_algo: HashAlgo,
    pub hashed: Seq<Subpacket>,
}

impl View for PartialSignature {
    type V = PartialView;

    open spec fn view(&self) -> PartialView {
        PartialView {
            sigtype: self.sigtype,
            pubkey_algo: self.pubkey_algo,
            hash_algo: self.hash_algo,
            hashed: hashed_views(self.subpackets@),
        }
    }
}

/// Whether the hashed area can be written: each subpacket fits its length
/// field and the area fits the two octets that hold its length.
pub open spec fn partial_fits(p: PartialView) -> bool {
    subpackets_fit(p.hashed) && subpackets_bytes(p.hashed).len() <= 0xFFFF
}

/// The hashed part of a signature body: version 4, signature type,
/// public-key algorithm, hash algorithm, the length of the hashed area in two
/// octets, the hashed area.
pub open spec fn partial_body(p: PartialView) -> Seq<u8> {
    seq![Version::V4.code(), p.sigtype.code(), p.pubkey_algo.code(), p.hash_algo.code()] + be16(
        subpackets_bytes(p.hashed).len() as int,
    ) + subpackets_bytes(p.hashed)
}

/// What the signature digests of itself: the hashed part of its body, then
/// the trailer `0x04 0xFF` and the length of that part in four octets.
pub open spec fn partial_hashable(p: PartialView) -> Seq<u8> {
    partial_body(p) + seq![0x04u8, 0xFFu8] + be32(partial_body(p).len() as int)
}

/// The fields of a signature made at `time` with SHA-256, whose hashed area
/// holds its creation time alone.
pub open spec fn fresh_partial(sigtype: SigType, pubkey_algo: PublicKeyAlgorithm, time: u64)
    -> PartialView {
    PartialView {
        sigtype,
        pubkey_algo,
        hash_algo: HashAlgo::SHA2_256,
        hashed: seq![(HSigSubpacket::CreationTime(time))@],
    }
}

impl PartialSignature {
    /// The fields of a signature made at `time` (now, where `time` is
    /// `None`), with SHA-256 and the creation time as its one hashed
    /// subpacket.
    pub fn new(sigtype: SigType, pubkey_algo: PublicKeyAlgorithm, time: Option<u64>) -> (partial:
        PartialSignature)
        ensures
            exists|t: u64| partial@ == fresh_partial(sigtype, pubkey_algo, t),
            time matches Some(t) ==> partial@ == fresh_partial(sigtype, pubkey_algo, t),
            partial.encodable(),
    {
        let epoch = stamp(time);
        let mut subpackets: Vec<HSigSubpacket> = Vec::new();
        subpackets.push(HSigSubpacket::CreationTime(epoch));
        let partial = PartialSignature {
            version: Version::V4,
            sigtype,
            pubkey_algo,
            hash_algo: HashAlgo::SHA2_256,
            subpackets,
        };
        proof {
            assert(partial@.hashed =~= fresh_partial(sigtype, pubkey_algo, epoch).hashed);
            lemma_fresh_partial_fits(sigtype, pubkey_algo, epoch);
        }
        partial
    }
}

/// A run of one subpacket is written as that subpacket.
pub proof fn lemma_subpackets_bytes_one(s: Subpacket)
    ensures
        subpackets_bytes(seq![s]) == subpacket_bytes(s),
{
    let none = seq![s].drop_last();
    assert(none.len() == 0);
    assert(subpackets_bytes(none) =~= Seq::<u8>::empty());
    assert(seq![s].last() == s);
    assert(subpackets_bytes(seq![s]) =~= subpacket_bytes(s));
}

/// The fields of a fresh signature can always be written.
pub proof fn lemma_fresh_partial_fits(sigtype: SigType, pubkey_algo: PublicKeyAlgorithm, time: u64)
    ensures
        partial_fits(fresh_partial(sigtype, pubkey_algo, time)),
{
    let s = (HSigSubpacket::CreationTime(time))@;
    lemma_subpackets_bytes_one(s);
}

impl ToPGPBytes for PartialSignature {
    open spec fn encodable(&self) -> bool {
        partial_fits(self@)
    }

    open spec fn raw_bytes(&self) -> Seq<u8> {
        partial_body(self@)
    }

    open spec fn formatted_bytes(&self) -> Seq<u8> {
        packet_header(partial_hashable(self@).len() as int, PacketHeader::Signature.tag())
            + partial_hashable(self@)
    }

    open spec fn hashable_bytes(&self) -> Seq<u8> {
        partial_hashable(self@)
    }

    fn is_encodable(&self) -> (yes: bool) {
        let ghost views = hashed_views(self.subpackets@);
        let mut i: usize = 0;
        while i < self.subpackets.len()
            invariant
                i <= self.subpackets.len(),
                views == hashed_views(self.subpackets@),
                forall|k: int| 0 <= k < i ==> subpacket_fits(views[k]),
            decreases self.subpackets.len() - i,
        {
            if !self.subpackets[i].is_encodable() {
                proof {
                    assert(!subpacket_fits(views[i as int]));
                }
                return false;
            }
            i = i + 1;
        }
        let area = hashed_area(&self.subpackets);
        area.len() <= 0xFFFF
    }

    fn to_raw_bytes(&self) -> (out: Vec<u8>) {
        let mut out: Vec<u8> = vec![
            self.version.octet(),
            self.sigtype.octet(),
            self.pubkey_algo.octet(),
            self.hash_algo.octet(),
        ];
        let area = hashed_area(&self.subpackets);
        push_be16(&mut out, area.len() as u16);
        extend(&mut out, area.as_slice());
        proof {
            assert(out@ =~= partial_body(self@));
        }
        out
    }

    fn to_hashable_bytes(&self) -> (out: Vec<u8>) {
        let mut out = self.to_raw_bytes();
        let len: u32 = out.len() as u32;
        out.push(0x04);
        out.push(0xFF);
        push_be32(&mut out, len);
        proof {
            assert(out@ =~= partial_hashable(self@));
        }
        out
    }

    fn to_formatted_bytes(&self) -> (out: Vec<u8>) {
        let contents = self.to_hashable_bytes();
        let mut out = calculate_packet_header(contents.as_slice(), PacketHeader::Signature);
        extend(&mut out, contents.as_slice());
        out
    }
}

/// A version 4 signature packet.
pub struct Signature {
    pub partial: PartialSignature,
    /// The unhashed subpackets.
    pub subpackets: Vec<SigSubpacket>,
    /// The two most significant octets of the digest that was signed.
    pub hash: [u8; 2],
    pub signature: SignatureData,
}

/// What a signature packet holds.
pub struct SignatureView {
    pub partial: PartialView,
    pub unhashed: Seq<Subpacket>,
    pub hash: Seq<u8>,
    pub value: (Seq<u8>, Seq<u8>),
}

impl View for Signature {
    type V = SignatureView;

    open spec fn view(&self) -> SignatureView {
        SignatureView {
            partial: self.partial@,
            unhashed: unhashed_views(self.subpackets@),
            hash: self.hash@,
            value: self.signature@,
        }
    }
}

/// Whether the signature can be written: its hashed fields can, its unhashed
/// area fits the two octets that hold its length, and its value fits two
/// multiprecision integers.
pub open spec fn signature_fits(s: SignatureView) -> bool {
    &&& partial_fits(s.partial)
    &&& subpackets_fit(s.unhashed)
    &&& subpackets_bytes(s.unhashed).len() <= 0xFFFF
    &&& s.hash.len() == 2
    &&& mpi_fits(s.value.0)
    &&& mpi_fits(s.value.1)
}

/// The body of a signature packet: the hashed part, the length of the
/// unhashed area in two octets, the unhashed area, the two high octets of
/// the digest, and the value.
pub open spec fn signature_body(s: SignatureView) -> Seq<u8> {
    partial_body(s.partial) + be16(subpackets_bytes(s.unhashed).len() as int) + subpackets_bytes(
        s.unhashed,
    ) + s.hash + signature_data_bytes(s.value)
}

impl Signature {
    /// Gives the fields `partial` the digest's high octets and the value;
    /// the unhashed area starts empty.
    pub fn new(partial: PartialSignature, hash: [u8; 2], signature: SignatureData) -> (sig:
        Signature)
        ensures
            sig@ == (SignatureView {
                partial: partial@,
                unhashed: Seq::empty(),
                hash: hash@,
                value: signature@,
            }),
    {
        let sig = Signature { partial, subpackets: Vec::new(), hash, signature };
        proof {
            assert(sig@.unhashed =~= Seq::<Subpacket>::empty());
        }
        sig
    }
}

impl ToPGPBytes for Signature {
    open spec fn encodable(&self) -> bool {
        signature_fits(self@)
    }

    open spec fn raw_bytes(&self) -> Seq<u8> {
        signature_body(self@)
    }

    open spec fn formatted_bytes(&self) -> Seq<u8> {
        packet_header(signature_body(self@).len() as int, PacketHeader::Signature.tag())
            + signature_body(self@)
    }

    open spec fn hashable_bytes(&self) -> Seq<u8> {
        partial_hashable(self@.partial)
    }

    fn is_encodable(&self) -> (yes: bool) {
        if !self.partial.is_encodable() || !self.signature.is_encodable() {
            return false;
        }
        let ghost views = unhashed_views(self.subpackets@);
        let mut i: usize = 0;
        while i < self.subpackets.len()
            invariant
                i <= self.subpackets.len(),
                views == unhashed_views(self.subpackets@),
                forall|k: int| 0 <= k < i ==> subpacket_fits(views[k]),
            decreases self.subpackets.len() - i,
        {
            if !self.subpackets[i].is_encodable() {
                proof {
                    assert(!subpacket_fits(views[i as int]));
                }
                return false;
            }
            i = i + 1;
        }
        let area = unhashed_area(&self.subpackets);
        area.len() <= 0xFFFF
    }

    fn to_raw_bytes(&self) -> (out: Vec<u8>) {
        let mut out = self.partial.to_raw_bytes();
        let area = unhashed_area(&self.subpackets);
        push_be16(&mut out, area.len() as u16);
        extend(&mut out, area.as_slice());
        out.push(self.hash[0]);
        out.push(self.hash[1]);
        let value = self.signature.to_formatted_bytes();
        extend(&mut out, value.as_slice());
        proof {
            assert(self.hash@ =~= seq![self.hash@[0], self.hash@[1]]);
            assert(out@ =~= signature_body(self@));
        }
        out
    }

    fn to_formatted_bytes(&self) -> (out: Vec<u8>) {
        let body = self.to_raw_bytes();
        let mut out = calculate_packet_header(body.as_slice(), PacketHeader::Signature);
        extend(&mut out, body.as_slice());
        out
    }

    fn to_hashable_bytes(&self) -> (out: Vec<u8>) {
        self.partial.to_hashable_bytes()
    }
}

} // verus!
