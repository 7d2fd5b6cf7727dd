//! Signature subpackets, hashed and unhashed.

use crate::octets::{be32, extend, push_be32};
use crate::pgp::codes::{
    CompressionAlgos, HashAlgo, KeyFlags, SigSubpacketID, SymmetricAlgos, Version,
};
use crate::pgp::framing::{
    duration_to_bytes, format_subpacket_length, subpacket_length, time_field,
};
use crate::pgp::ToPGPBytes;
use vstd::prelude::*;

verus! {

/// What a signature subpacket is on the wire: its type and its body.
pub struct Subpacket {
    pub kind: u8,
    pub body: Seq<u8>,
}

/// Whether the length of the subpacket fits its length field.
pub open spec fn subpacket_fits(s: Subpacket) -> bool {
    1 + s.body.len() <= u32::MAX
}

/// A subpacket as written: the length of type and body, the type, the body.
pub open spec fn subpacket_bytes(s: Subpacket) -> Seq<u8> {
    subpacket_length(1 + s.body.len() as int) + seq![s.kind] + s.body
}

/// A run of subpackets as written, one after the other.
pub open spec fn subpackets_bytes(subs: Seq<Subpacket>) -> Seq<u8>
    decreases subs.len(),
{
    if subs.len() == 0 {
        Seq::empty()
    } else {
        subpackets_bytes(subs.drop_last()) + subpacket_bytes(subs.last())
    }
}

/// Whether every subpacket of the run fits its length field.
pub open spec fn subpackets_fit(subs: Seq<Subpacket>) -> bool {
    forall|i: int| 0 <= i < subs.len() ==> subpacket_fits(#[trigger] subs[i])
}

/// A subpacket of the hashed area of a signature.
pub enum HSigSubpacket {
    /// When the signature was made, in seconds since the epoch.
    CreationTime(u64),
    /// The fingerprint of the issuing key.
    Fingerprint(Vec<u8>),
    KeyFlags(KeyFlags),
    PreferredSymmetricAlgos(Vec<SymmetricAlgos>),
    PreferredHashAlgos(Vec<HashAlgo>),
    PreferredCompressionAlgos(Vec<CompressionAlgos>),
    KeyServerPreference(u8),
}

/// A subpacket of the unhashed area of a signature.
pub enum SigSubpacket {
    /// The key ID of the issuing key.
    KeyID(Vec<u8>),
}

impl HSigSubpacket {
    /// The value that the subpacket carries, without the version octet that
    /// the wire form of a fingerprint adds.
    pub open spec fn value(&self) -> Seq<u8> {
        match self {
            HSigSubpacket::CreationTime(t) => time_field(*t),
            HSigSubpacket::Fingerprint(f) => f@,
            HSigSubpacket::KeyFlags(f) => seq![f.code()],
            HSigSubpacket::PreferredSymmetricAlgos(a) => a@.map_values(
                |x: SymmetricAlgos| x.code(),
            ),
            HSigSubpacket::PreferredHashAlgos(a) => a@.map_values(|x: HashAlgo| x.code()),
            HSigSubpacket::PreferredCompressionAlgos(a) => a@.map_values(
                |x: CompressionAlgos| x.code(),
            ),
            HSigSubpacket::KeyServerPreference(p) => seq![*p],
        }
    }

    /// The subpacket type.
    pub open spec fn id(&self) -> SigSubpacketID {
        match self {
            HSigSubpacket::CreationTime(_) => SigSubpacketID::CreationTime,
            HSigSubpacket::Fingerprint(_) => SigSubpacketID::IssuerFingerprint,
            HSigSubpacket::KeyFlags(_) => SigSubpacketID::KeyFlags,
            HSigSubpacket::PreferredSymmetricAlgos(_) => SigSubpacketID::PreferredSymmetricAlgos,
            HSigSubpacket::PreferredHashAlgos(_) => SigSubpacketID::PreferredHashAlgos,
            HSigSubpacket::PreferredCompressionAlgos(_) => {
                SigSubpacketID::PreferredCompressionAlgos
            },
            HSigSubpacket::KeyServerPreference(_) => SigSubpacketID::KeyServerPreference,
        }
    }
}

impl View for HSigSubpacket {
    type V = Subpacket;

    open spec fn view(&self) -> Subpacket {
        match self {
            HSigSubpacket::Fingerprint(f) => Subpacket {
                kind: self.id().code(),
                body: seq![Version::V4.code()] + f@,
            },
            _ => Subpacket { kind: self.id().code(), body: self.value() },
        }
    }
}

impl View for SigSubpacket {
    type V = Subpacket;

    open spec fn view(&self) -> Subpacket {
        match self {
            SigSubpacket::KeyID(k) => Subpacket { kind: SigSubpacketID::KeyID.code(), body: k@ },
        }
    }
}

/// The views of a run of hashed subpackets.
pub open spec fn hashed_views(subs: Seq<HSigSubpacket>) -> Seq<Subpacket> {
    subs.map_values(|s: HSigSubpacket| s@)
}

/// The views of a run of unhashed subpackets.
pub open spec fn unhashed_views(subs: Seq<SigSubpacket>) -> Seq<Subpacket> {
    subs.map_values(|s: SigSubpacket| s@)
}

fn symmetric_codes(algos: &Vec<SymmetricAlgos>) -> (out: Vec<u8>)
    ensures
        out@ == algos@.map_values(|x: SymmetricAlgos| x.code()),
{
    let mut out: Vec<u8> = Vec::new();
    let mut i: usize = 0;
    while i < algos.len()
        invariant
            i <= algos.len(),
            out@ == algos@.take(i as int).map_values(|x: SymmetricAlgos| x.code()),
        decreases algos.len() - i,
    {
        out.push(algos[i].octet());
        proof {
            assert(out@ =~= algos@.take(i + 1).map_values(|x: SymmetricAlgos| x.code()));
        }
        i = i + 1;
    }
    proof {
        assert(algos@.take(algos.len() as int) =~= algos@);
    }
    out
}

fn hash_codes(algos: &Vec<HashAlgo>) -> (out: Vec<u8>)
    ensures
        out@ == algos@.map_values(|x: HashAlgo| x.code()),
{
    let mut out: Vec<u8> = Vec::new();
    let mut i: usize = 0;
    while i < algos.len()
        invariant
            i <= algos.len(),
            out@ == algos@.take(i as int).map_values(|x: HashAlgo| x.code()),
        decreases algos.len() - i,
    {
        out.push(algos[i].octet());
        proof {
            assert(out@ =~= algos@.take(i + 1).map_values(|x: HashAlgo| x.code()));
        }
        i = i + 1;
    }
    proof {
        assert(algos@.take(algos.len() as int) =~= algos@);
    }
    out
}

fn compression_codes(algos: &Vec<CompressionAlgos>) -> (out: Vec<u8>)
    ensures
        out@ == algos@.map_values(|x: CompressionAlgos| x.code()),
{
    let mut out: Vec<u8> = Vec::new();
    let mut i: usize = 0;
    while i < algos.len()
        invariant
            i <= algos.len(),
            out@ == algos@.take(i as int).map_values(|x: CompressionAlgos| x.code()),
        decreases algos.len() - i,
    {
        out.push(algos[i].octet());
        proof {
            assert(out@ =~= algos@.take(i + 1).map_values(|x: CompressionAlgos| x.code()));
        }
        i = i + 1;
    }
    proof {
        assert(algos@.take(algos.len() as int) =~= algos@);
    }
    out
}

/// Writes one subpacket: length, type, body.
fn frame(kind: u8, body: &[u8]) -> (out: Vec<u8>)
    requires
        1 + body@.len() <= u32::MAX,
    ensures
        out@ == subpacket_bytes(Subpacket { kind, body: body@ }),
{
    let mut out = format_subpacket_length(body.len() + 1);
    out.push(kind);
    extend(&mut out, body);
    proof {
        assert(out@ =~= subpacket_bytes(Subpacket { kind, body: body@ }));
    }
    out
}

impl HSigSubpacket {
    fn id_octet(&self) -> (c: u8)
        ensures
            c == self.id().code(),
    {
        match self {
            HSigSubpacket::CreationTime(_) => SigSubpacketID::CreationTime.octet(),
            HSigSubpacket::Fingerprint(_) => SigSubpacketID::IssuerFingerprint.octet(),
            HSigSubpacket::KeyFlags(_) => SigSubpacketID::KeyFlags.octet(),
            HSigSubpacket::PreferredSymmetricAlgos(_) => {
                SigSubpacketID::PreferredSymmetricAlgos.octet()
            },
            HSigSubpacket::PreferredHashAlgos(_) => SigSubpacketID::PreferredHashAlgos.octet(),
            HSigSubpacket::PreferredCompressionAlgos(_) => {
                SigSubpacketID::PreferredCompressionAlgos.octet()
            },
            HSigSubpacket::KeyServerPreference(_) => SigSubpacketID::KeyServerPreference.octet(),
        }
    }
}

impl ToPGPBytes for HSigSubpacket {
    open spec fn encodable(&self) -> bool {
        subpacket_fits(self@)
    }

    open spec fn raw_bytes(&self) -> Seq<u8> {
        self.value()
    }

    open spec fn formatted_bytes(&self) -> Seq<u8> {
        subpacket_bytes(self@)
    }

    open spec fn hashable_bytes(&self) -> Seq<u8> {
        subpacket_bytes(self@)
    }

    fn is_encodable(&self) -> (yes: bool) {
        match self {
            HSigSubpacket::Fingerprint(f) => f.len() <= 0xFFFF_FFFD,
            HSigSubpacket::PreferredSymmetricAlgos(a) => a.len() <= 0xFFFF_FFFE,
            HSigSubpacket::PreferredHashAlgos(a) => a.len() <= 0xFFFF_FFFE,
            HSigSubpacket::PreferredCompressionAlgos(a) => a.len() <= 0xFFFF_FFFE,
            _ => true,
        }
    }

    fn to_raw_bytes(&self) -> (out: Vec<u8>) {
        match self {
            HSigSubpacket::CreationTime(t) => duration_to_bytes(*t),
            HSigSubpacket::Fingerprint(f) => {
                let mut out: Vec<u8> = Vec::new();
                extend(&mut out, f.as_slice());
                out
            },
            HSigSubpacket::KeyFlags(f) => vec![f.octet()],
            HSigSubpacket::PreferredSymmetricAlgos(a) => symmetric_codes(a),
            HSigSubpacket::PreferredHashAlgos(a) => hash_codes(a),
            HSigSubpacket::PreferredCompressionAlgos(a) => compression_codes(a),
            HSigSubpacket::KeyServerPreference(p) => vec![*p],
        }
    }

    fn to_formatted_bytes(&self) -> (out: Vec<u8>) {
        let kind = self.id_octet();
        match self {
            HSigSubpacket::Fingerprint(f) => {
                let mut body: Vec<u8> = vec![Version::V4.octet()];
                extend(&mut body, f.as_slice());
                frame(kind, body.as_slice())
            },
            _ => {
                let body = self.to_raw_bytes();
                frame(kind, body.as_slice())
            },
        }
    }

    fn to_hashable_bytes(&self) -> (out: Vec<u8>) {
        self.to_formatted_bytes()
    }
}

impl ToPGPBytes for SigSubpacket {
    open spec fn encodable(&self) -> bool {
        subpacket_fits(self@)
    }

    open spec fn raw_bytes(&self) -> Seq<u8> {
        self@.body
    }

    open spec fn formatted_bytes(&self) -> Seq<u8> {
        subpacket_bytes(self@)
    }

    /// An unhashed subpacket framed as a certified field is: the octet
    /// `0xB4`, its length in four octets, its body.
    open spec fn hashable_bytes(&self) -> Seq<u8> {
        seq![0xB4u8] + be32(self@.body.len() as int) + self@.body
    }

    fn is_encodable(&self) -> (yes: bool) {
        match self {
            SigSubpacket::KeyID(k) => k.len() <= 0xFFFF_FFFE,
        }
    }

    fn to_raw_bytes(&self) -> (out: Vec<u8>) {
        match self {
            SigSubpacket::KeyID(k) => {
                let mut out: Vec<u8> = Vec::new();
                extend(&mut out, k.as_slice());
                out
            },
        }
    }

    fn to_formatted_bytes(&self) -> (out: Vec<u8>) {
        match self {
            SigSubpacket::KeyID(k) => frame(SigSubpacketID::KeyID.octet(), k.as_slice()),
        }
    }

    fn to_hashable_bytes(&self) -> (out: Vec<u8>) {
        match self {
            SigSubpacket::KeyID(k) => {
                let mut out: Vec<u8> = vec![0xB4u8];
                push_be32(&mut out, k.len() as u32);
                extend(&mut out, k.as_slice());
                proof {
                    assert(out@ =~= self.hashable_bytes());
                }
                out
            },
        }
    }
}

/// Writes a run of hashed subpackets.
pub fn hashed_area(subs: &Vec<HSigSubpacket>) -> (out: Vec<u8>)
    requires
        subpackets_fit(hashed_views(subs@)),
    ensures
        out@ == subpackets_bytes(hashed_views(subs@)),
{
    let mut out: Vec<u8> = Vec::new();
    let mut i: usize = 0;
    let ghost views = hashed_views(subs@);
    while i < subs.len()
        invariant
            i <= subs.len(),
            views == hashed_views(subs@),
            subpackets_fit(views),
            out@ == subpackets_bytes(views.take(i as int)),
        decreases subs.len() - i,
    {
        proof {
            assert(subpacket_fits(views[i as int]));
            assert(views.take(i + 1).drop_last() =~= views.take(i as int));
        }
        let one = subs[i].to_formatted_bytes();
        extend(&mut out, one.as_slice());
        i = i + 1;
    }
    proof {
        assert(views.take(subs.len() as int) =~= views);
    }
    out
}

/// Writes a run of unhashed subpackets.
pub fn unhashed_area(subs: &Vec<SigSubpacket>) -> (out: Vec<u8>)
    requires
        subpackets_fit(unhashed_views(subs@)),
    ensures
        out@ == subpackets_bytes(unhashed_views(subs@)),
{
    let mut out: Vec<u8> = Vec::new();
    let mut i: usize = 0;
    let ghost views = unhashed_views(subs@);
    while i < subs.len()
        invariant
            i <= subs.len(),
            views == unhashed_views(subs@),
            subpackets_fit(views),
            out@ == subpackets_bytes(views.take(i as int)),
        decreases subs.len() - i,
    {
        proof {
            assert(subpacket_fits(views[i as int]));
            assert(views.take(i + 1).drop_last() =~= views.take(i as int));
        }
        let one = subs[i].to_formatted_bytes();
        extend(&mut out, one.as_slice());
        i = i + 1;
    }
    proof {
        assert(views.take(subs.len() as int) =~= views);
    }
    out
}

} // verus!
