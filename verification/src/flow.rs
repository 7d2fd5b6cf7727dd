//! What a run of the tool decides and computes between its talks with the
//! server, with Git and with the user.

use crate::armor::{armor, armor_binary_output};
use crate::config::config_file;
use crate::errors::ProtocolError;
use crate::git::{create_tag_string, tag_string};
use crate::hashes::sha256_digest;
use crate::octets::extend;
use crate::pgp::codes::{CurveOID, PublicKeyAlgorithm, SigType};
use crate::pgp::message::{
    certification_partial, finished, message_formatted, message_hashable, message_pending, Message,
    PacketView,
};
use crate::pgp::packet::{
    fingerprint_of, fresh_partial, keyid_of, public_key_fits, user_id_fits, KeyView, PublicKey,
    PublicKeyView, SignatureData, UserIDView,
};
use crate::pgp::ToPGPBytes;
use crate::signing::SignatureRecid;
use crate::utils::{Config, Operation, OperationView, Tag, User};
use vstd::prelude::*;
use vstd::string::*;
use vstd::utf8::encode_utf8;

verus! {

/// What the user asked for.
#[derive(Clone, Copy, Debug, PartialEq, Eq)]
pub enum Command {
    /// `keygen`.
    KeyGen,
    /// `start-tag`.
    StartTag,
    /// Anything else: a command of Git.
    Other,
}

/// A part in a protocol.
#[derive(Clone, Copy, Debug, PartialEq, Eq)]
pub enum Role {
    KeyGen,
    Tag,
}

/// What the tool does with a command.
#[derive(Clone, Copy, Debug, PartialEq, Eq)]
pub struct Plan {
    /// The operation that the user starts and leads.
    pub lead: Option<Role>,
    /// The operation under way that the user is asked to take part in.
    pub offer: Option<Role>,
    /// Whether the command is handed to Git as it is.
    pub passthrough: bool,
}

/// What the tool does with `command`, given whether the server answered
/// and which operation it reported. `keygen` and `start-tag` start their
/// operation on an idle project and offer the user a part in the operation
/// under way otherwise; any other command offers a part in a key
/// generation or a tag signature under way, and is handed to Git in any
/// case. Without the server nothing is started or offered.
pub open spec fn plan_for(command: Command, reachable: bool, pending: OperationView) -> Plan {
    match command {
        Command::KeyGen => Plan {
            lead: if reachable && pending is Idle {
                Some(Role::KeyGen)
            } else {
                None
            },
            offer: if reachable && !(pending is Idle) {
                Some(Role::KeyGen)
            } else {
                None
            },
            passthrough: false,
        },
        Command::StartTag => Plan {
            lead: if reachable && pending is Idle {
                Some(Role::Tag)
            } else {
                None
            },
            offer: if reachable && !(pending is Idle) {
                Some(Role::Tag)
            } else {
                None
            },
            passthrough: false,
        },
        Command::Other => Plan {
            lead: None,
            offer: if reachable && pending is KeyGen {
                Some(Role::KeyGen)
            } else if reachable && pending is SignTag {
                Some(Role::Tag)
            } else {
                None
            },
            passthrough: true,
        },
    }
}

/// Decides what to do with `command`.
pub fn plan(command: Command, reachable: bool, pending: &Operation) -> (p: Plan)
    ensures
        p == plan_for(command, reachable, pending@),
{
    let idle = pending.is_idle();
    match command {
        Command::KeyGen => Plan {
            lead: if reachable && idle {
                Some(Role::KeyGen)
            } else {
                None
            },
            offer: if reachable && !idle {
                Some(Role::KeyGen)
            } else {
                None
            },
            passthrough: false,
        },
        Command::StartTag => Plan {
            lead: if reachable && idle {
                Some(Role::Tag)
            } else {
                None
            },
            offer: if reachable && !idle {
                Some(Role::Tag)
            } else {
                None
            },
            passthrough: false,
        },
        Command::Other => {
            let offer = if !reachable {
                None
            } else {
                match pending {
                    Operation::KeyGen { .. } => Some(Role::KeyGen),
                    Operation::SignTag { .. } => Some(Role::Tag),
                    _ => None,
                }
            };
            Plan { lead: None, offer, passthrough: true }
        },
    }
}

/// The arguments that Git is called with for a command that is not the
/// tool's own: the subcommand, where there is one, and its arguments; and
/// `--help` alone where there is neither.
pub fn passthrough_args(subcommand: &str, args: Vec<String>) -> (argv: Vec<String>)
    ensures
        argv@.len() == (if subcommand@.len() == 0 {
            if args@.len() == 0 {
                1
            } else {
                args@.len()
            }
        } else {
            args@.len() + 1
        }),
        subcommand@.len() == 0 && args@.len() == 0 ==> argv@[0]@ == "--help"@,
        subcommand@.len() == 0 && args@.len() > 0 ==> argv@ == args@,
        subcommand@.len() > 0 ==> argv@[0]@ == subcommand@ && argv@.subrange(
            1,
            argv@.len() as int,
        ) == args@,
{
    let mut argv = args;
    if subcommand.is_empty() {
        if argv.len() == 0 {
            argv.push(String::from_str("--help"));
        }
    } else {
        let ghost before = argv@;
        argv.insert(0, String::from_str(subcommand));
        proof {
            assert(argv@.subrange(1, argv@.len() as int) =~= before);
        }
    }
    argv
}

/// The operation that starts a key generation.
pub fn keygen_operation(config: &Config, user: &User, epoch: u64) -> (op: Operation)
    ensures
        op@ == (OperationView::KeyGen {
            participants: config.participants,
            leader: user.username@,
            email: user.email@,
            epoch,
        }),
{
    Operation::KeyGen {
        participants: config.participants,
        leader: user.username.clone(),
        email: user.email.clone(),
        epoch,
    }
}

/// The operation that starts the signature of the new key.
pub fn sign_key_operation(config: &Config, user: &User, epoch: u64) -> (op: Operation)
    ensures
        op@ == (OperationView::SignKey {
            participants: config.participants,
            threshold: config.threshold,
            leader: user.username@,
            email: user.email@,
            epoch,
        }),
{
    Operation::SignKey {
        participants: config.participants,
        threshold: config.threshold,
        leader: user.username.clone(),
        email: user.email.clone(),
        epoch,
    }
}

/// The operation that starts the signature of `tag`.
pub fn sign_tag_operation(config: &Config, tag: &Tag) -> (op: Operation)
    ensures
        op@ == (OperationView::SignTag {
            participants: config.participants,
            threshold: config.threshold,
            tag: tag@,
        }),
{
    Operation::SignTag {
        participants: config.participants,
        threshold: config.threshold,
        tag: tag.duplicate(),
    }
}

/// The files of a key generation: that of the party's share and that of the
/// group's OpenPGP key, under the names given or `public_key.json` and
/// `keyfile.pgp`, both in the tool's directory.
pub fn key_files(git_dir: &str, pubkey: Option<&str>, keyfile: Option<&str>) -> (files: (
    String,
    String,
))
    ensures
        files.0@ == git_dir@ + "/"@ + ".dit"@ + "/"@ + (match pubkey {
            Some(name) => name@,
            None => "public_key.json"@,
        }),
        files.1@ == git_dir@ + "/"@ + ".dit"@ + "/"@ + (match keyfile {
            Some(name) => name@,
            None => "keyfile.pgp"@,
        }),
{
    let share = match pubkey {
        Some(name) => config_file(git_dir, name),
        None => config_file(git_dir, "public_key.json"),
    };
    let key = match keyfile {
        Some(name) => config_file(git_dir, name),
        None => config_file(git_dir, "keyfile.pgp"),
    };
    (share, key)
}

/// What a tag signature starts from.
pub struct TagSigning<'a> {
    /// The signature packet, waiting for its value.
    pub message: Message<'a>,
    /// The text of the tag object.
    pub tag_string: String,
    /// The digest that the group signs.
    pub digest: Vec<u8>,
}

/// The octets that the signature of a tag digests: the text of the tag
/// object and then the hashable form of a binary signature made at the
/// time of the tag.
pub open spec fn tag_signed_octets(tag: crate::utils::TagView) -> Seq<u8> {
    encode_utf8(tag_string(tag)) + message_hashable(
        seq![
            PacketView::PartialSignature(
                fresh_partial(SigType::Binary, PublicKeyAlgorithm::ECDSA, tag.epoch),
            ),
        ],
    )
}

/// Prepares the signature of `tag`: the signature packet is made at the
/// time of the tag, and the digest to sign is the SHA-256 of the text of
/// the tag object followed by the hashable form of the packet.
pub fn start_tag_signature<'a>(tag: &Tag) -> (start: TagSigning<'a>)
    ensures
        start.message.wf(),
        start.message@ == seq![
            PacketView::PartialSignature(
                fresh_partial(SigType::Binary, PublicKeyAlgorithm::ECDSA, tag.epoch),
            ),
        ],
        start.tag_string@ == tag_string(tag@),
        start.digest@ == sha256_digest(tag_signed_octets(tag@)),
        start.digest@.len() == 32,
{
    let mut message = Message::new();
    message.new_signature(tag.epoch);
    let text = create_tag_string(tag);
    let mut signed: Vec<u8> = Vec::new();
    extend(&mut signed, text.as_str().as_bytes());
    let digest = message.get_sha256_hash(Some(signed));
    TagSigning { message, tag_string: text, digest }
}

/// The signature value in the form that the encoder takes.
pub fn encode_sig_data(sig: SignatureRecid) -> (data: SignatureData)
    ensures
        data@ == (sig.r@, sig.s@),
{
    SignatureData::ECDSA(sig.r, sig.s)
}

/// Completes the signature of a tag with the group's signature `sig` and
/// the key ID `keyid` of the group's key, and gives the tag object that Git
/// stores. `Blame` where the signature cannot be written: an `r` or `s`
/// that is empty or too long for a multiprecision integer.
pub fn finish_tag_signature<'a>(start: TagSigning<'a>, keyid: [u8; 8], sig: SignatureRecid) -> (out:
    Result<Vec<u8>, ProtocolError>)
    requires
        start.message.wf(),
        message_pending(start.message@),
        start.digest@.len() >= 2,
    ensures
        match out {
            Ok(object) => {
                let done = start.message@.drop_last().push(
                    PacketView::Signature(
                        finished(
                            start.message@.last()->PartialSignature_0,
                            start.digest@.take(2),
                            keyid@,
                            (sig.r@, sig.s@),
                        ),
                    ),
                );
                &&& crate::pgp::framing::mpi_fits(sig.r@)
                &&& crate::pgp::framing::mpi_fits(sig.s@)
                &&& object@ == encode_utf8(start.tag_string@) + armor(message_formatted(done))
            },
            Err(e) => e == ProtocolError::Blame && !(crate::pgp::framing::mpi_fits(sig.r@)
                && crate::pgp::framing::mpi_fits(sig.s@)),
        },
{
    let TagSigning { mut message, tag_string, digest } = start;
    let data = encode_sig_data(sig);
    if !data.is_encodable() {
        return Err(ProtocolError::Blame);
    }
    let hash: [u8; 2] = [digest[0], digest[1]];
    let mut id: Vec<u8> = Vec::new();
    extend(&mut id, keyid.as_slice());
    proof {
        assert(hash@ =~= digest@.take(2));
    }
    let done = message.finalize_signature(hash, id, data);
    let formatted = message.get_formatted_message();
    let armored = armor_binary_output(formatted.as_slice());
    let mut object: Vec<u8> = Vec::new();
    extend(&mut object, tag_string.as_str().as_bytes());
    extend(&mut object, armored.as_slice());
    Ok(object)
}

/// What the signature of a new key starts from.
pub struct KeySigning<'a> {
    /// The key, its user ID and their certification, waiting for its value.
    pub message: Message<'a>,
    /// The key ID of the new key.
    pub keyid: Vec<u8>,
    /// The digest that the group signs.
    pub digest: Vec<u8>,
}

/// Prepares the certification of the group's new key: the point `(x, y)` on
/// secp256k1, made at `epoch` for `leader <email>`. The digest to sign is
/// the SHA-256 of the hashable form of the message. `None` for coordinates
/// of more than thirty-two octets, or a name and an address too long for a
/// user ID.
pub fn start_key_signature<'a>(
    x: &'a [u8],
    y: &'a [u8],
    leader: String,
    email: String,
    epoch: u64,
) -> (start: Option<KeySigning<'a>>)
    ensures
        match start {
            Some(s) => {
                let key = KeyView {
                    creation_time: epoch,
                    key: PublicKeyView::ECDSA(CurveOID::Secp256k1, x@, y@),
                };
                &&& s.message.wf()
                &&& s.message@ == seq![
                    PacketView::PublicKey(key),
                    PacketView::UserID(UserIDView { user: leader@, email: email@ }),
                    PacketView::PartialSignature(certification_partial(epoch, fingerprint_of(key))),
                ]
                &&& s.keyid@ == keyid_of(key)
                &&& s.keyid@.len() == 8
                &&& s.digest@ == sha256_digest(message_hashable(s.message@))
                &&& s.digest@.len() == 32
            },
            None => !(x@.len() <= 32 && y@.len() <= 32 && user_id_fits(
                UserIDView { user: leader@, email: email@ },
            )),
        },
{
    let pubkey = PublicKey::ECDSA(CurveOID::Secp256k1, x, y);
    if !pubkey.is_encodable() {
        return None;
    }
    let probe = crate::pgp::packet::UserID { user: leader, email };
    if !probe.is_encodable() {
        return None;
    }
    let crate::pgp::packet::UserID { user, email } = probe;
    let mut message = Message::new();
    let keyid = message.new_public_key(pubkey, user, email, epoch);
    let digest = message.get_sha256_hash(None);
    proof {
        assert(Seq::<u8>::empty() + message_hashable(message@) =~= message_hashable(message@));
    }
    Some(KeySigning { message, keyid, digest })
}

/// Completes the certification of the new key with the group's signature
/// and gives the key as it is written to the key file: the packets of the
/// message on the wire. `Blame` where the signature cannot be written.
pub fn finish_key_signature<'a>(start: KeySigning<'a>, sig: SignatureRecid) -> (out: Result<
    Vec<u8>,
    ProtocolError,
>)
    requires
        start.message.wf(),
        message_pending(start.message@),
        start.keyid@.len() == 8,
        start.digest@.len() >= 2,
    ensures
        match out {
            Ok(key) => {
                let done = start.message@.drop_last().push(
                    PacketView::Signature(
                        finished(
                            start.message@.last()->PartialSignature_0,
                            start.digest@.take(2),
                            start.keyid@,
                            (sig.r@, sig.s@),
                        ),
                    ),
                );
                &&& crate::pgp::framing::mpi_fits(sig.r@)
                &&& crate::pgp::framing::mpi_fits(sig.s@)
                &&& key@ == message_formatted(done)
            },
            Err(e) => e == ProtocolError::Blame && !(crate::pgp::framing::mpi_fits(sig.r@)
                && crate::pgp::framing::mpi_fits(sig.s@)),
        },
{
    let KeySigning { mut message, keyid, digest } = start;
    let data = encode_sig_data(sig);
    if !data.is_encodable() {
        return Err(ProtocolError::Blame);
    }
    let hash: [u8; 2] = [digest[0], digest[1]];
    proof {
        assert(hash@ =~= digest@.take(2));
    }
    let done = message.finalize_signature(hash, keyid, data);
    Ok(message.get_formatted_message())
}

} // verus!
