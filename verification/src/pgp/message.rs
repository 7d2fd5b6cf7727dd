//! An OpenPGP message: a signature alone, or a public key with its user ID
//! and the certification that binds them.

use crate::hashes::{sha256_digest, sha256_hash};
use crate::octets::extend;
use crate::pgp::codes::{
    CompressionAlgos, HashAlgo, KeyFlags, PublicKeyAlgorithm, SigSubpacketID, SigType,
    SymmetricAlgos,
};
use crate::pgp::framing::{packet_header, time_field, PacketHeader};
use crate::pgp::packet::{
    fingerprint_of, fresh_partial, key_packet_body, key_packet_hashable, keyid_of,
    lemma_fresh_partial_fits, lemma_subpackets_bytes_one, partial_fits, partial_hashable,
    public_key_fits, signature_body, signature_fits, user_id_body, user_id_fits,
    user_id_hashable, KeyView, PKPacket, PartialSignature, PartialView, PublicKey, Signature,
    SignatureData, SignatureView, UserID, UserIDView,
};
use crate::pgp::subpacket::{
    hashed_views, subpacket_bytes, subpacket_fits, subpackets_bytes, subpackets_fit,
    unhashed_views, HSigSubpacket, SigSubpacket, Subpacket,
};
use crate::pgp::ToPGPBytes;
use vstd::prelude::*;

verus! {

/// One packet of a message.
pub enum Packet<'a> {
    PublicKey(PKPacket<'a>),
    Signature(Signature),
    PartialSignature(PartialSignature),
    UserID(UserID),
}

/// What one packet of a message holds.
pub enum PacketView {
    PublicKey(KeyView),
    Signature(SignatureView),
    PartialSignature(PartialView),
    UserID(UserIDView),
}

impl<'a> View for Packet<'a> {
    type V = PacketView;

    open spec fn view(&self) -> PacketView {
        match self {
            Packet::PublicKey(k) => PacketView::PublicKey(k@),
            Packet::Signature(s) => PacketView::Signature(s@),
            Packet::PartialSignature(p) => PacketView::PartialSignature(p@),
            Packet::UserID(u) => PacketView::UserID(u@),
        }
    }
}

/// Whether the packet can be written.
pub open spec fn packet_fits(p: PacketView) -> bool {
    match p {
        PacketView::PublicKey(k) => public_key_fits(k.key),
        PacketView::Signature(s) => signature_fits(s),
        PacketView::PartialSignature(p) => partial_fits(p),
        PacketView::UserID(u) => user_id_fits(u),
    }
}

/// What a signature digests of the packet.
pub open spec fn packet_hashable(p: PacketView) -> Seq<u8> {
    match p {
        PacketView::PublicKey(k) => key_packet_hashable(k),
        PacketView::Signature(s) => partial_hashable(s.partial),
        PacketView::PartialSignature(p) => partial_hashable(p),
        PacketView::UserID(u) => user_id_hashable(u),
    }
}

/// The packet on the wire: its header and its body. A signature that waits
/// for its value has no wire form; the function gives its hashable form
/// behind a header.
pub open spec fn packet_formatted(p: PacketView) -> Seq<u8> {
    match p {
        PacketView::PublicKey(k) => packet_header(
            key_packet_body(k).len() as int,
            PacketHeader::PublicKey.tag(),
        ) + key_packet_body(k),
        PacketView::Signature(s) => packet_header(
            signature_body(s).len() as int,
            PacketHeader::Signature.tag(),
        ) + signature_body(s),
        PacketView::PartialSignature(p) => packet_header(
            partial_hashable(p).len() as int,
            PacketHeader::Signature.tag(),
        ) + partial_hashable(p),
        PacketView::UserID(u) => packet_header(
            user_id_body(u).len() as int,
            PacketHeader::UserID.tag(),
        ) + user_id_body(u),
    }
}

/// What a signature digests of the packets, in their order.
pub open spec fn message_hashable(m: Seq<PacketView>) -> Seq<u8>
    decreases m.len(),
{
    if m.len() == 0 {
        Seq::empty()
    } else {
        message_hashable(m.drop_last()) + packet_hashable(m.last())
    }
}

/// The packets on the wire, in their order.
pub open spec fn message_formatted(m: Seq<PacketView>) -> Seq<u8>
    decreases m.len(),
{
    if m.len() == 0 {
        Seq::empty()
    } else {
        message_formatted(m.drop_last()) + packet_formatted(m.last())
    }
}

/// The shapes a message can have: nothing yet; a signature alone, waiting
/// for its value or complete; a public key, its user ID and their
/// certification, waiting for its value or complete.
pub open spec fn message_shape(m: Seq<PacketView>) -> bool {
    ||| m.len() == 0
    ||| m.len() == 1 && (m[0] is PartialSignature || m[0] is Signature)
    ||| m.len() == 3 && m[0] is PublicKey && m[1] is UserID && (m[2] is PartialSignature || m[2]
        is Signature)
}

/// Whether the last packet is a signature that waits for its value.
pub open spec fn message_pending(m: Seq<PacketView>) -> bool {
    m.len() > 0 && m.last() is PartialSignature
}

/// Whether every packet can be written.
pub open spec fn message_fits(m: Seq<PacketView>) -> bool {
    forall|i: int| 0 <= i < m.len() ==> packet_fits(#[trigger] m[i])
}

/// The hashed fields of the certification that a new key carries: made at
/// `time` by the key with fingerprint `fingerprint`, a positive
/// certification of the user ID, with the subpackets that GnuPG writes for a
/// signing key, in its order: creation time, issuer fingerprint, key flags
/// (sign), preferred ciphers (AES-256, AES-192, AES-128, 3DES), preferred
/// digests (SHA-512, SHA-384, SHA-256, SHA-224), preferred compression
/// (ZLIB, BZip2, ZIP) and the key-server preference `0x80`.
pub open spec fn certification_partial(time: u64, fingerprint: Seq<u8>) -> PartialView {
    PartialView {
        sigtype: SigType::UserIDPKCert,
        pubkey_algo: PublicKeyAlgorithm::ECDSA,
        hash_algo: HashAlgo::SHA2_256,
        hashed: seq![
            Subpacket { kind: 0x02, body: time_field(time) },
            Subpacket { kind: 0x21, body: seq![4u8] + fingerprint },
            Subpacket { kind: 0x1b, body: seq![0x02u8] },
            Subpacket { kind: 0x0b, body: seq![0x09u8, 0x08, 0x07, 0x02] },
            Subpacket { kind: 0x15, body: seq![10u8, 9, 8, 11] },
            Subpacket { kind: 0x16, body: seq![0x02u8, 0x03, 0x01] },
            Subpacket { kind: 0x17, body: seq![0x80u8] },
        ],
    }
}

/// The unhashed area of a finished signature: the key ID of its issuer.
pub open spec fn issuer_area(keyid: Seq<u8>) -> Seq<Subpacket> {
    seq![Subpacket { kind: 0x10, body: keyid }]
}

/// The signature that a waiting one becomes: the same hashed fields, the
/// issuer's key ID in the unhashed area, the two high octets of the digest
/// and the value.
pub open spec fn finished(
    partial: PartialView,
    hash: Seq<u8>,
    keyid: Seq<u8>,
    value: (Seq<u8>, Seq<u8>),
) -> SignatureView {
    SignatureView { partial, unhashed: issuer_area(keyid), hash, value }
}

/// A run of subpackets with short bodies is short.
proof fn lemma_subpackets_bytes_bound(subs: Seq<Subpacket>, bound: int)
    requires
        0 <= bound < 186,
        forall|i: int| 0 <= i < subs.len() ==> (#[trigger] subs[i]).body.len() <= bound,
    ensures
        subpackets_bytes(subs).len() <= subs.len() * (bound + 2),
        subpackets_fit(subs),
    decreases subs.len(),
{
    if subs.len() > 0 {
        let front = subs.drop_last();
        assert forall|i: int| 0 <= i < front.len() implies (#[trigger] front[i]).body.len()
            <= bound by {
            assert(front[i] == subs[i]);
        }
        lemma_subpackets_bytes_bound(front, bound);
        assert(subs.last() == subs[subs.len() - 1]);
        assert(subpacket_bytes(subs.last()).len() <= bound + 2);
        assert(subs.len() * (bound + 2) == front.len() * (bound + 2) + (bound + 2))
            by (nonlinear_arith)
            requires
                subs.len() == front.len() + 1,
        ;
        assert forall|i: int| 0 <= i < subs.len() implies subpacket_fits(#[trigger] subs[i]) by {
            assert(subs[i].body.len() <= bound);
        }
    }
}

/// The certification of a new key can always be written.
pub proof fn lemma_certification_fits(time: u64, fingerprint: Seq<u8>)
    requires
        fingerprint.len() == 20,
    ensures
        partial_fits(certification_partial(time, fingerprint)),
{
    let subs = certification_partial(time, fingerprint).hashed;
    lemma_subpackets_bytes_bound(subs, 21);
    assert(subs.len() * 23 == 161);
}

/// The unhashed area of a finished signature can always be written.
pub proof fn lemma_issuer_area_fits(keyid: Seq<u8>)
    requires
        keyid.len() == 8,
    ensures
        subpackets_fit(issuer_area(keyid)),
        subpackets_bytes(issuer_area(keyid)).len() == 10,
{
    lemma_subpackets_bytes_one(issuer_area(keyid)[0]);
    assert(issuer_area(keyid) =~= seq![issuer_area(keyid)[0]]);
}

/// An OpenPGP message under construction or complete.
pub struct Message<'a> {
    packets: Vec<Packet<'a>>,
}

impl<'a> View for Message<'a> {
    type V = Seq<PacketView>;

    closed spec fn view(&self) -> Seq<PacketView> {
        self.packets@.map_values(|p: Packet<'a>| p@)
    }
}

impl<'a> Message<'a> {
    /// Whether the message has one of the shapes of `message_shape` and each
    /// of its packets can be written.
    pub open spec fn wf(&self) -> bool {
        message_shape(self@) && message_fits(self@)
    }

    /// A message without packets.
    pub fn new() -> (m: Message<'a>)
        ensures
            m@ == Seq::<PacketView>::empty(),
            m.wf(),
    {
        let m = Message { packets: Vec::new() };
        proof {
            assert(m@ =~= Seq::<PacketView>::empty());
        }
        m
    }

    /// Whether the message has no packet yet.
    pub fn is_empty(&self) -> (yes: bool)
        ensures
            yes == (self@.len() == 0),
    {
        self.packets.len() == 0
    }

    /// Whether the message ends in a signature that waits for its value.
    pub fn is_pending(&self) -> (yes: bool)
        ensures
            yes == message_pending(self@),
    {
        let n = self.packets.len();
        if n == 0 {
            return false;
        }
        match &self.packets[n - 1] {
            Packet::PartialSignature(_) => true,
            _ => false,
        }
    }

    /// Starts the signature of a binary document: the message becomes one
    /// ECDSA signature made at `time`, waiting for its value.
    pub fn new_signature(&mut self, time: u64)
        requires
            old(self)@.len() == 0,
        ensures
            final(self)@ == seq![
                PacketView::PartialSignature(
                    fresh_partial(SigType::Binary, PublicKeyAlgorithm::ECDSA, time),
                ),
            ],
            final(self).wf(),
    {
        let partial = PartialSignature::new(SigType::Binary, PublicKeyAlgorithm::ECDSA, Some(time));
        self.packets.push(Packet::PartialSignature(partial));
        proof {
            lemma_fresh_partial_fits(SigType::Binary, PublicKeyAlgorithm::ECDSA, time);
            assert(self@ =~= seq![
                PacketView::PartialSignature(
                    fresh_partial(SigType::Binary, PublicKeyAlgorithm::ECDSA, time),
                ),
            ]);
        }
    }

    /// Starts a new key: the message becomes the public-key packet of
    /// `pubkey` made at `time`, the user ID `user <email>`, and their
    /// certification, waiting for its value. Returns the key ID of the key.
    pub fn new_public_key(&mut self, pubkey: PublicKey<'a>, user: String, email: String, time: u64)
        -> (keyid: Vec<u8>)
        requires
            old(self)@.len() == 0,
            public_key_fits(pubkey@),
            user_id_fits(UserIDView { user: user@, email: email@ }),
        ensures
            final(self)@ == ({
                let key = KeyView { creation_time: time, key: pubkey@ };
                seq![
                    PacketView::PublicKey(key),
                    PacketView::UserID(UserIDView { user: user@, email: email@ }),
                    PacketView::PartialSignature(certification_partial(time, fingerprint_of(key))),
                ]
            }),
            keyid@ == keyid_of(KeyView { creation_time: time, key: pubkey@ }),
            keyid@.len() == 8,
            final(self).wf(),
    {
        let public_key_packet = PKPacket::new(pubkey, Some(time));
        let fingerprint = public_key_packet.fingerprint();
        let keyid = public_key_packet.keyid();
        let ghost key = public_key_packet@;
        let ghost print = fingerprint@;
        let ghost uid = UserIDView { user: user@, email: email@ };

        let mut subpackets: Vec<HSigSubpacket> = Vec::new();
        subpackets.push(HSigSubpacket::CreationTime(time));
        subpackets.push(HSigSubpacket::Fingerprint(fingerprint));
        subpackets.push(HSigSubpacket::KeyFlags(KeyFlags::CanSign));
        subpackets.push(
            HSigSubpacket::PreferredSymmetricAlgos(
                vec![
                    SymmetricAlgos::AES256,
                    SymmetricAlgos::AES192,
                    SymmetricAlgos::AES128,
                    SymmetricAlgos::TripleDES,
                ],
            ),
        );
        subpackets.push(
            HSigSubpacket::PreferredHashAlgos(
                vec![HashAlgo::SHA2_512, HashAlgo::SHA2_384, HashAlgo::SHA2_256, HashAlgo::SHA2_224],
            ),
        );
        subpackets.push(
            HSigSubpacket::PreferredCompressionAlgos(
                vec![CompressionAlgos::ZLIB, CompressionAlgos::BZip2, CompressionAlgos::ZIP],
            ),
        );
        subpackets.push(HSigSubpacket::KeyServerPreference(0x80));
        proof {
            let want = certification_partial(time, print).hashed;
            let have = hashed_views(subpackets@);
            assert(have.len() == 7);
            assert(have[0] == want[0]);
            assert(have[1] == want[1]);
            assert(have[2] == want[2]);
            assert(have[3].body =~= want[3].body);
            assert(have[4].body =~= want[4].body);
            assert(have[5].body =~= want[5].body);
            assert(have[6].body =~= want[6].body);
            assert(have =~= want);
            lemma_certification_fits(time, print);
        }
        let partial = PartialSignature {
            version: crate::pgp::codes::Version::V4,
            sigtype: SigType::UserIDPKCert,
            pubkey_algo: PublicKeyAlgorithm::ECDSA,
            hash_algo: HashAlgo::SHA2_256,
            subpackets,
        };
        self.packets.push(Packet::PublicKey(public_key_packet));
        self.packets.push(Packet::UserID(UserID { user, email }));
        self.packets.push(Packet::PartialSignature(partial));
        proof {
            assert(self@ =~= seq![
                PacketView::PublicKey(key),
                PacketView::UserID(uid),
                PacketView::PartialSignature(certification_partial(time, print)),
            ]);
        }
        keyid
    }

    /// Completes the signature that the message ends in: the waiting
    /// signature leaves, and in its place stands a signature with the same
    /// hashed fields, the key ID `keyid` of the issuer in its unhashed area,
    /// the two high octets `hash` of the digest that was signed, and the
    /// value `sig`. Returns whether the message ended in a waiting
    /// signature; a message that did not is left as it was.
    pub fn finalize_signature(&mut self, hash: [u8; 2], keyid: Vec<u8>, sig: SignatureData) -> (done:
        bool)
        requires
            old(self).wf(),
            keyid@.len() == 8,
            sig.encodable(),
        ensures
            done == message_pending(old(self)@),
            done ==> final(self)@ == old(self)@.drop_last().push(
                PacketView::Signature(
                    finished(old(self)@.last()->PartialSignature_0, hash@, keyid@, sig@),
                ),
            ),
            !done ==> final(self)@ == old(self)@,
            final(self).wf(),
    {
        let ghost before = self@;
        match self.packets.pop() {
            Some(Packet::PartialSignature(partial)) => {
                let ghost fields = partial@;
                let ghost front = self@;
                proof {
                    assert(front =~= before.drop_last());
                    assert(before.last() == PacketView::PartialSignature(fields));
                    assert(packet_fits(before[before.len() - 1]));
                    lemma_issuer_area_fits(keyid@);
                }
                let mut signature = Signature::new(partial, hash, sig);
                let ghost id = keyid@;
                signature.subpackets.push(SigSubpacket::KeyID(keyid));
                proof {
                    assert(signature@.unhashed =~= issuer_area(id));
                    assert(signature@ == finished(fields, hash@, id, signature.signature@));
                }
                self.packets.push(Packet::Signature(signature));
                proof {
                    assert(self@ =~= front.push(
                        PacketView::Signature(finished(fields, hash@, id, sig@)),
                    ));
                    assert forall|i: int| 0 <= i < self@.len() implies packet_fits(
                        #[trigger] self@[i],
                    ) by {
                        if i < front.len() {
                            assert(self@[i] == before[i]);
                        }
                    }
                }
                true
            },
            Some(other) => {
                self.packets.push(other);
                proof {
                    assert(self@ =~= before);
                }
                false
            },
            None => {
                proof {
                    assert(self@ =~= before);
                }
                false
            },
        }
    }

    /// What a signature of the message digests: the hashable forms of its
    /// packets, in their order.
    pub fn get_hashable(&self) -> (buffer: Vec<u8>)
        requires
            self.wf(),
        ensures
            buffer@ == message_hashable(self@),
    {
        let mut buffer: Vec<u8> = Vec::new();
        let mut i: usize = 0;
        while i < self.packets.len()
            invariant
                i <= self.packets.len(),
                self.wf(),
                buffer@ == message_hashable(self@.take(i as int)),
            decreases self.packets.len() - i,
        {
            proof {
                assert(packet_fits(self@[i as int]));
                assert(self@.take(i + 1).drop_last() =~= self@.take(i as int));
            }
            let one = match &self.packets[i] {
                Packet::PublicKey(pubkey) => pubkey.to_hashable_bytes(),
                Packet::Signature(sig) => sig.to_hashable_bytes(),
                Packet::PartialSignature(partial) => partial.to_hashable_bytes(),
                Packet::UserID(userid) => userid.to_hashable_bytes(),
            };
            extend(&mut buffer, one.as_slice());
            i = i + 1;
        }
        proof {
            assert(self@.take(self.packets.len() as int) =~= self@);
        }
        buffer
    }

    /// The message on the wire: the formatted forms of its packets, in their
    /// order. The message must not end in a signature that waits for its
    /// value.
    pub fn get_formatted_message(&self) -> (buffer: Vec<u8>)
        requires
            self.wf(),
            !message_pending(self@),
        ensures
            buffer@ == message_formatted(self@),
    {
        let mut buffer: Vec<u8> = Vec::new();
        let mut i: usize = 0;
        while i < self.packets.len()
            invariant
                i <= self.packets.len(),
                self.wf(),
                buffer@ == message_formatted(self@.take(i as int)),
            decreases self.packets.len() - i,
        {
            proof {
                assert(packet_fits(self@[i as int]));
                assert(self@.take(i + 1).drop_last() =~= self@.take(i as int));
            }
            let one = match &self.packets[i] {
                Packet::PublicKey(pubkey) => pubkey.to_formatted_bytes(),
                Packet::Signature(sig) => sig.to_formatted_bytes(),
                Packet::UserID(userid) => userid.to_formatted_bytes(),
                Packet::PartialSignature(partial) => partial.to_formatted_bytes(),
            };
            extend(&mut buffer, one.as_slice());
            i = i + 1;
        }
        proof {
            assert(self@.take(self.packets.len() as int) =~= self@);
        }
        buffer
    }

    /// The SHA-256 digest that a signature of the message signs: that of
    /// `signed`, the octets of the signed document, followed by the hashable
    /// form of the message. A key certification signs no document and
    /// passes `None`.
    pub fn get_sha256_hash(&self, signed: Option<Vec<u8>>) -> (digest: Vec<u8>)
        requires
            self.wf(),
        ensures
            digest@ == sha256_digest(
                match signed {
                    Some(document) => document@,
                    None => Seq::empty(),
                } + message_hashable(self@),
            ),
            digest@.len() == 32,
    {
        let mut input: Vec<u8> = match signed {
            Some(document) => document,
            None => Vec::new(),
        };
        let hashable = self.get_hashable();
        extend(&mut input, hashable.as_slice());
        sha256_hash(input.as_slice())
    }
}

} // verus!
