//! Distributed signing: the rounds in which `t + 1` parties sign a digest
//! with the shares of their group key.

use crate::errors::ProtocolError;
use crate::octets::extend;
use crate::pgp::framing::{left_padded, push_left_padded};
use crate::protocol::{polls_follow_sends, Engine, Parameters, Step};
use libsecp256k1::{Message, PublicKey, PublicKeyFormat, Signature};
use vstd::prelude::*;
use vstd::string::*;

verus! {

/// An ECDSA signature with its recovery bit: `r` and `s` most significant
/// octet first.
#[derive(Clone, Debug, PartialEq, Eq)]
pub struct SignatureRecid {
    pub r: Vec<u8>,
    pub s: Vec<u8>,
    pub recid: u8,
}

/// The steps of a signature, in order: sign up; announce the own index of
/// the key generation (round 0); sample the nonces and commit (stage 1) and
/// broadcast the commitment and the first message of the share conversion
/// (round 1); answer every peer's conversion (stage 2) and send each its
/// answer (round 2); finish the conversions (stage 3) and derive the own
/// shares of the products (stage 4); broadcast them with the decommitment
/// (round 4); reconstruct and derive the nonce point (stage 5) and
/// broadcast it with the proofs that bind the own nonce to it (round 5);
/// check the peers' proofs and prove the own share consistent (stage 6) and
/// broadcast that proof (round 6); check the peers' proofs and sign locally
/// (stage 7); broadcast the local signature (round 7); sum the local
/// signatures and check the sum (stage 8).
pub open spec fn sign_script() -> Seq<Step> {
    seq![
        Step::SignUp,
        Step::Broadcast { round: 0 },
        Step::PollBroadcasts { round: 0 },
        Step::Compute { stage: 1 },
        Step::Broadcast { round: 1 },
        Step::PollBroadcasts { round: 1 },
        Step::Compute { stage: 2 },
        Step::SendP2p { round: 2 },
        Step::PollP2p { round: 2 },
        Step::Compute { stage: 3 },
        Step::Compute { stage: 4 },
        Step::Broadcast { round: 4 },
        Step::PollBroadcasts { round: 4 },
        Step::Compute { stage: 5 },
        Step::Broadcast { round: 5 },
        Step::PollBroadcasts { round: 5 },
        Step::Compute { stage: 6 },
        Step::Broadcast { round: 6 },
        Step::PollBroadcasts { round: 6 },
        Step::Compute { stage: 7 },
        Step::Broadcast { round: 7 },
        Step::PollBroadcasts { round: 7 },
        Step::Compute { stage: 8 },
    ]
}

/// In a signature every poll follows at once on the writing of its round,
/// and every stage follows on a poll or on the stage before it.
pub proof fn lemma_sign_script()
    ensures
        polls_follow_sends(sign_script()),
        sign_script().len() == 23,
{
}

/// The steps of a signature, in order.
pub fn sign_steps() -> (steps: Vec<Step>)
    ensures
        steps@ == sign_script(),
{
    let steps: Vec<Step> = vec![
        Step::SignUp,
        Step::Broadcast { round: 0 },
        Step::PollBroadcasts { round: 0 },
        Step::Compute { stage: 1 },
        Step::Broadcast { round: 1 },
        Step::PollBroadcasts { round: 1 },
        Step::Compute { stage: 2 },
        Step::SendP2p { round: 2 },
        Step::PollP2p { round: 2 },
        Step::Compute { stage: 3 },
        Step::Compute { stage: 4 },
        Step::Broadcast { round: 4 },
        Step::PollBroadcasts { round: 4 },
        Step::Compute { stage: 5 },
        Step::Broadcast { round: 5 },
        Step::PollBroadcasts { round: 5 },
        Step::Compute { stage: 6 },
        Step::Broadcast { round: 6 },
        Step::PollBroadcasts { round: 6 },
        Step::Compute { stage: 7 },
        Step::Broadcast { round: 7 },
        Step::PollBroadcasts { round: 7 },
        Step::Compute { stage: 8 },
    ];
    assert(steps@ =~= sign_script());
    steps
}

/// An engine at the start of a signature.
pub fn sign_engine() -> (engine: Engine)
    ensures
        engine@ == crate::protocol::initial(sign_script()),
        crate::protocol::engine_wf(engine@),
{
    Engine::new(sign_steps())
}

/// Among how many parties a signer polls: the `t + 1` signers.
pub fn sign_parties(params: &Parameters) -> (n: u32)
    ensures
        n == params.quorum(),
{
    params.threshold as u32 + 1
}

/// The values of all signers in the order of their positions: `own` at
/// `position`, counted from one, among the values of the peers in theirs.
pub open spec fn with_own_at<T>(own: T, others: Seq<T>, position: int) -> Seq<T> {
    others.insert(position - 1, own)
}

/// Puts the own value among the values read from the peers, which come in
/// ascending order of the peers' positions. `Blame` for a position that is
/// none among `others.len() + 1` signers.
pub fn with_own<T>(own: T, others: Vec<T>, position: u16) -> (all: Result<Vec<T>, ProtocolError>)
    ensures
        1 <= position <= others@.len() + 1 ==> (all matches Ok(v) && v@ == with_own_at(
            own,
            others@,
            position as int,
        )),
        !(1 <= position <= others@.len() + 1) ==> all == Err::<Vec<T>, ProtocolError>(
            ProtocolError::Blame,
        ),
{
    let mut all = others;
    if position < 1 || position as usize - 1 > all.len() {
        return Err(ProtocolError::Blame);
    }
    all.insert(position as usize - 1, own);
    Ok(all)
}

/// Whether the indices that the signers announced make a signing group:
/// there are `t + 1` of them with the own, each is an index of the key
/// generation, and no two are the same.
pub open spec fn signers_valid(params: Parameters, position: u16, all: Seq<u16>) -> bool {
    &&& all.len() == params.quorum()
    &&& 1 <= position <= all.len()
    &&& forall|k: int| 0 <= k < all.len() ==> 1 <= #[trigger] all[k] <= params.share_count
    &&& forall|k: int, l: int| 0 <= k < l < all.len() ==> all[k] != all[l]
}

/// The indices of the signers, counted from zero, in the order of their
/// positions. `own_party` is this party's index of the key generation,
/// `position` its position among the signers, both counted from one, and
/// `announced` the indices that the peers announced, in ascending order of
/// their positions. `Blame` where the announced indices make no signing
/// group.
pub fn signer_indices(params: &Parameters, own_party: u16, position: u16, announced: &Vec<u16>)
    -> (res: Result<Vec<usize>, ProtocolError>)
    ensures
        match res {
            Ok(signers) => {
                let all = with_own_at(own_party, announced@, position as int);
                &&& 1 <= position <= announced@.len() + 1
                &&& signers_valid(*params, position, all)
                &&& signers@.len() == all.len()
                &&& forall|k: int| 0 <= k < all.len() ==> #[trigger] signers@[k] == all[k] - 1
            },
            Err(e) => e == ProtocolError::Blame && !(1 <= position <= announced@.len() + 1
                && signers_valid(
                *params,
                position,
                with_own_at(own_party, announced@, position as int),
            )),
        },
{
    if position < 1 || position as usize - 1 > announced.len() {
        return Err(ProtocolError::Blame);
    }
    let mut all: Vec<u16> = Vec::new();
    extend_u16(&mut all, announced);
    all.insert(position as usize - 1, own_party);
    let ghost merged = with_own_at(own_party, announced@, position as int);
    assert(all@ =~= merged);
    if all.len() != params.threshold as usize + 1 {
        return Err(ProtocolError::Blame);
    }
    let mut signers: Vec<usize> = Vec::new();
    let mut k: usize = 0;
    while k < all.len()
        invariant
            k <= all.len(),
            all@ == merged,
            merged == with_own_at(own_party, announced@, position as int),
            1 <= position <= announced@.len() + 1,
            all@.len() == params.quorum(),
            signers@.len() == k,
            forall|j: int| 0 <= j < k ==> 1 <= #[trigger] all@[j] <= params.share_count,
            forall|j: int| 0 <= j < k ==> #[trigger] signers@[j] == all@[j] - 1,
            forall|i: int, j: int| 0 <= i < j < k ==> all@[i] != all@[j],
        decreases all.len() - k,
    {
        let index = all[k];
        if index < 1 || index > params.share_count {
            proof {
                assert(!(1 <= merged[k as int] <= params.share_count));
            }
            return Err(ProtocolError::Blame);
        }
        let mut i: usize = 0;
        while i < k
            invariant
                i <= k,
                k < all.len(),
                all@ == merged,
                merged == with_own_at(own_party, announced@, position as int),
                index == all@[k as int],
                forall|j: int| 0 <= j < i ==> all@[j] != index,
            decreases k - i,
        {
            if all[i] == index {
                proof {
                    assert(merged[i as int] == merged[k as int]);
                }
                return Err(ProtocolError::Blame);
            }
            i = i + 1;
        }
        signers.push((index - 1) as usize);
        k = k + 1;
    }
    Ok(signers)
}

fn extend_u16(out: &mut Vec<u16>, values: &Vec<u16>)
    ensures
        final(out)@ == old(out)@ + values@,
{
    let mut i: usize = 0;
    while i < values.len()
        invariant
            i <= values.len(),
            out@ == old(out)@ + values@.take(i as int),
        decreases values.len() - i,
    {
        out.push(values[i]);
        proof {
            assert(values@.take(i + 1) =~= values@.take(i as int).push(values@[i as int]));
            assert(out@ =~= old(out)@ + values@.take(i + 1));
        }
        i = i + 1;
    }
    proof {
        assert(values@.take(values.len() as int) =~= values@);
    }
}

/// The value of a hexadecimal digit, upper or lower case.
pub open spec fn hex_digit(c: u8) -> Option<int> {
    if 48 <= c <= 57 {
        Some(c - 48)
    } else if 65 <= c <= 70 {
        Some(c - 55)
    } else if 97 <= c <= 102 {
        Some(c - 87)
    } else {
        None
    }
}

/// The octets that a hexadecimal text stands for: one for each two digits.
/// `None` for a text of odd length or with a symbol that is no digit.
pub open spec fn hex_decoded(text: Seq<u8>) -> Option<Seq<u8>> {
    if text.len() % 2 == 0 && forall|i: int| 0 <= i < text.len() ==> hex_digit(text[i]) is Some {
        Some(
            Seq::new(
                text.len() / 2,
                |i: int| (16 * hex_digit(text[2 * i])->0 + hex_digit(text[2 * i + 1])->0) as u8,
            ),
        )
    } else {
        None
    }
}

/// Calls `hex::decode` of the `hex` crate. Trusted: the result is what the
/// digits of `text` stand for, two digits to the octet and the first the
/// higher, and there is none where the length of `text` is odd or one of
/// its symbols is no hexadecimal digit.
#[verifier::external_body]
fn hex_decode(text: &[u8]) -> (out: Option<Vec<u8>>)
    ensures
        match out {
            Some(v) => hex_decoded(text@) == Some(v@),
            None => hex_decoded(text@) is None,
        },
{
    hex::decode(text).ok()
}

/// The octets to sign that a text names: those that it spells in
/// hexadecimal where it does, else its own.
pub fn message_from_text(text: &str) -> (message: Vec<u8>)
    ensures
        message@ == match hex_decoded(text.spec_bytes()) {
            Some(octets) => octets,
            None => text.spec_bytes(),
        },
{
    match hex_decode(text.as_bytes()) {
        Some(octets) => octets,
        None => {
            let mut own: Vec<u8> = Vec::new();
            extend(&mut own, text.as_bytes());
            own
        },
    }
}

/// Whether `libsecp256k1` takes `signature`, sixty-four octets `r || s`, for
/// a signature of the thirty-two octets `message` under the uncompressed
/// public key `key` of sixty-five octets.
pub uninterp spec fn ecdsa_accepts(message: Seq<u8>, signature: Seq<u8>, key: Seq<u8>) -> bool;

/// Calls `libsecp256k1::verify` on what `Message::parse_slice`,
/// `Signature::parse_overflowing_slice` and `PublicKey::parse_slice` make of
/// the three octet strings. Trusted: the result is that of the crate, and
/// false where the key is no point of the curve.
#[verifier::external_body]
fn secp256k1_verify(message: &[u8], signature: &[u8], key: &[u8]) -> (ok: bool)
    requires
        message@.len() == 32,
        signature@.len() == 64,
        key@.len() == 65,
    ensures
        ok == ecdsa_accepts(message@, signature@, key@),
{
    match (
        Message::parse_slice(message),
        Signature::parse_overflowing_slice(signature),
        PublicKey::parse_slice(key, Some(PublicKeyFormat::Full)),
    ) {
        (Ok(m), Ok(s), Ok(k)) => libsecp256k1::verify(&m, &s, &k),
        _ => false,
    }
}

/// The public key with the octet `0x04` before its coordinates, which a key
/// of sixty-four octets lacks.
pub open spec fn full_key(pk: Seq<u8>) -> Seq<u8> {
    if pk.len() == 64 {
        seq![4u8] + pk
    } else {
        pk
    }
}

/// Whether `(r, s)` is taken for a signature of `msg` under `pk`: each of
/// `r`, `s` and `msg` has at most thirty-two octets and is padded to them
/// with zero octets on the left, `pk` has the two coordinates of a point in
/// sixty-four octets, or those behind the octet `0x04`, and the signature
/// verifies.
pub open spec fn signature_checks(r: Seq<u8>, s: Seq<u8>, msg: Seq<u8>, pk: Seq<u8>) -> bool {
    &&& r.len() <= 32
    &&& s.len() <= 32
    &&& msg.len() <= 32
    &&& pk.len() == 64 || pk.len() == 65
    &&& ecdsa_accepts(left_padded(msg, 32), left_padded(r, 32) + left_padded(s, 32), full_key(pk))
}

/// Checks the signature `(r, s)` of the digest `msg` against the public key
/// `pk`.
pub fn check_sig(r: &[u8], s: &[u8], msg: &[u8], pk: &[u8]) -> (ok: bool)
    ensures
        ok == signature_checks(r@, s@, msg@, pk@),
{
    if r.len() > 32 || s.len() > 32 || msg.len() > 32 {
        return false;
    }
    if pk.len() != 64 && pk.len() != 65 {
        return false;
    }
    let mut message: Vec<u8> = Vec::new();
    push_left_padded(&mut message, msg, 32);
    let mut raw_pk: Vec<u8> = Vec::new();
    if pk.len() == 64 {
        raw_pk.push(4);
    }
    extend(&mut raw_pk, pk);
    let mut compact: Vec<u8> = Vec::new();
    push_left_padded(&mut compact, r, 32);
    push_left_padded(&mut compact, s, 32);
    proof {
        assert(message@ =~= left_padded(msg@, 32));
        assert(raw_pk@ =~= full_key(pk@));
        assert(compact@ =~= left_padded(r@, 32) + left_padded(s@, 32));
    }
    secp256k1_verify(message.as_slice(), compact.as_slice(), raw_pk.as_slice())
}

} // verus!
