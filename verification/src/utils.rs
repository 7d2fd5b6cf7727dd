//! Operations, tags, the configuration and the clock.

use crate::text::{decimal, join, joined, texts, to_decimal};
use std::time::SystemTime;
use vstd::prelude::*;
use vstd::string::*;

verus! {

/// Where the rendezvous server listens.
#[derive(Debug, Clone)]
pub struct Server {
    pub address: String,
    pub port: u16,
}

/// The configuration of a repository.
#[derive(Debug, Clone)]
pub struct Config {
    pub project: String,
    pub server: Server,
    pub participants: u16,
    pub threshold: u16,
    pub user: Option<User>,
}

/// Who tags.
#[derive(Debug, Clone)]
pub struct User {
    pub username: String,
    pub email: String,
}

/// A tag: who made it, when, of which commit, under which name and with
/// which message.
#[derive(Debug, PartialEq, Clone, Eq)]
pub struct Tag {
    pub creator: String,
    pub email: String,
    pub epoch: u64,
    pub timezone: String,
    pub name: String,
    pub commit: String,
    pub message: String,
}

/// What a tag holds.
pub struct TagView {
    pub creator: Seq<char>,
    pub email: Seq<char>,
    pub epoch: u64,
    pub timezone: Seq<char>,
    pub name: Seq<char>,
    pub commit: Seq<char>,
    pub message: Seq<char>,
}

impl View for Tag {
    type V = TagView;

    open spec fn view(&self) -> TagView {
        TagView {
            creator: self.creator@,
            email: self.email@,
            epoch: self.epoch,
            timezone: self.timezone@,
            name: self.name@,
            commit: self.commit@,
            message: self.message@,
        }
    }
}

/// How a tag is shown to a participant.
pub open spec fn tag_description(t: TagView) -> Seq<char> {
    "tag "@ + t.commit + "\ncreator "@ + t.creator + " <"@ + t.email + ">\nepoch "@ + decimal(
        t.epoch as nat,
    ) + " "@ + t.timezone + "\n\n"@ + t.message
}

impl Tag {
    /// The tag as shown to a participant.
    pub fn describe(&self) -> (s: String)
        ensures
            s@ == tag_description(self@),
    {
        let mut s = String::from_str("tag ");
        s.append(self.commit.as_str());
        s.append("\ncreator ");
        s.append(self.creator.as_str());
        s.append(" <");
        s.append(self.email.as_str());
        s.append(">\nepoch ");
        s.append(to_decimal(self.epoch).as_str());
        s.append(" ");
        s.append(self.timezone.as_str());
        s.append("\n\n");
        s.append(self.message.as_str());
        s
    }

    /// A copy of the tag.
    pub fn duplicate(&self) -> (copy: Tag)
        ensures
            copy == *self,
    {
        Tag {
            creator: self.creator.clone(),
            email: self.email.clone(),
            epoch: self.epoch,
            timezone: self.timezone.clone(),
            name: self.name.clone(),
            commit: self.commit.clone(),
            message: self.message.clone(),
        }
    }
}

/// What the participants of a project are doing: nothing, generating the
/// group key, signing the new key, signing a tag, or nothing any more
/// because the protocol was aborted.
#[derive(PartialEq, Eq, Debug, Clone)]
pub enum Operation {
    Idle,
    KeyGen { participants: u16, leader: String, email: String, epoch: u64 },
    SignTag { participants: u16, threshold: u16, tag: Tag },
    SignKey { participants: u16, threshold: u16, leader: String, email: String, epoch: u64 },
    Blame {  },
}

/// What an operation holds.
pub enum OperationView {
    Idle,
    KeyGen { participants: u16, leader: Seq<char>, email: Seq<char>, epoch: u64 },
    SignTag { participants: u16, threshold: u16, tag: TagView },
    SignKey { participants: u16, threshold: u16, leader: Seq<char>, email: Seq<char>, epoch: u64 },
    Blame,
}

impl View for Operation {
    type V = OperationView;

    open spec fn view(&self) -> OperationView {
        match self {
            Operation::Idle => OperationView::Idle,
            Operation::KeyGen { participants, leader, email, epoch } => OperationView::KeyGen {
                participants: *participants,
                leader: leader@,
                email: email@,
                epoch: *epoch,
            },
            Operation::SignTag { participants, threshold, tag } => OperationView::SignTag {
                participants: *participants,
                threshold: *threshold,
                tag: tag@,
            },
            Operation::SignKey {
                participants,
                threshold,
                leader,
                email,
                epoch,
            } => OperationView::SignKey {
                participants: *participants,
                threshold: *threshold,
                leader: leader@,
                email: email@,
                epoch: *epoch,
            },
            Operation::Blame {  } => OperationView::Blame,
        }
    }
}

/// How an operation is shown to a participant.
pub open spec fn operation_description(op: OperationView) -> Seq<char> {
    match op {
        OperationView::Idle => "Currently idle"@,
        OperationView::KeyGen { participants, leader, email, epoch } => leader + " <"@ + email
            + "> started key generation at "@ + decimal(epoch as nat) + " with "@ + decimal(
            participants as nat,
        ) + " participants"@,
        OperationView::SignTag { participants, threshold, tag } => "Signing tag with a "@
            + decimal(participants as nat) + "-"@ + decimal(threshold as nat) + " threshold:\n"@
            + tag_description(tag),
        OperationView::SignKey { participants, threshold, leader, email, epoch } => leader
            + " <"@ + email + "> started signing the key with a "@ + decimal(participants as nat)
            + "-"@ + decimal(threshold as nat) + " threshold at "@ + decimal(epoch as nat),
        OperationView::Blame => "Protocol has been terminated"@,
    }
}

impl Operation {
    /// The operation as shown to a participant.
    pub fn describe(&self) -> (s: String)
        ensures
            s@ == operation_description(self@),
    {
        match self {
            Operation::Idle => String::from_str("Currently idle"),
            Operation::KeyGen { participants, leader, email, epoch } => {
                let mut s = leader.clone();
                s.append(" <");
                s.append(email.as_str());
                s.append("> started key generation at ");
                s.append(to_decimal(*epoch).as_str());
                s.append(" with ");
                s.append(to_decimal(*participants as u64).as_str());
                s.append(" participants");
                s
            },
            Operation::SignTag { participants, threshold, tag } => {
                let mut s = String::from_str("Signing tag with a ");
                s.append(to_decimal(*participants as u64).as_str());
                s.append("-");
                s.append(to_decimal(*threshold as u64).as_str());
                s.append(" threshold:\n");
                s.append(tag.describe().as_str());
                s
            },
            Operation::SignKey { participants, threshold, leader, email, epoch } => {
                let mut s = leader.clone();
                s.append(" <");
                s.append(email.as_str());
                s.append("> started signing the key with a ");
                s.append(to_decimal(*participants as u64).as_str());
                s.append("-");
                s.append(to_decimal(*threshold as u64).as_str());
                s.append(" threshold at ");
                s.append(to_decimal(*epoch).as_str());
                s
            },
            Operation::Blame {  } => String::from_str("Protocol has been terminated"),
        }
    }

    /// A copy of the operation.
    pub fn duplicate(&self) -> (copy: Operation)
        ensures
            copy == *self,
    {
        match self {
            Operation::Idle => Operation::Idle,
            Operation::KeyGen { participants, leader, email, epoch } => Operation::KeyGen {
                participants: *participants,
                leader: leader.clone(),
                email: email.clone(),
                epoch: *epoch,
            },
            Operation::SignTag { participants, threshold, tag } => Operation::SignTag {
                participants: *participants,
                threshold: *threshold,
                tag: tag.duplicate(),
            },
            Operation::SignKey { participants, threshold, leader, email, epoch } => {
                Operation::SignKey {
                    participants: *participants,
                    threshold: *threshold,
                    leader: leader.clone(),
                    email: email.clone(),
                    epoch: *epoch,
                }
            },
            Operation::Blame {  } => Operation::Blame {  },
        }
    }

    /// Whether nothing is going on.
    pub fn is_idle(&self) -> (yes: bool)
        ensures
            yes == (self@ is Idle),
    {
        match self {
            Operation::Idle => true,
            _ => false,
        }
    }
}

/// The system clock gave a time before the epoch.
#[derive(Debug)]
pub struct ClockError;

/// Reads `SystemTime::now` of std as whole seconds since the Unix epoch.
/// Trusted, with nothing claimed of the time read; `None` where the clock
/// stands before the epoch.
#[verifier::external_body]
fn system_clock() -> (now: Option<u64>) {
    match SystemTime::now().duration_since(SystemTime::UNIX_EPOCH) {
        Ok(elapsed) => Some(elapsed.as_secs()),
        Err(_) => None,
    }
}

/// Seconds since the Unix epoch.
pub fn get_current_epoch() -> Result<u64, ClockError> {
    // The clock decides what is read; `epoch_of` says what is made of it.
    let reading = system_clock();
    let epoch = epoch_of(reading);
    epoch
}

/// The time to stamp a packet with: `time` where the caller gave one, else
/// the clock's, and the epoch itself where the clock stands before it.
pub fn stamp(time: Option<u64>) -> (t: u64)
    ensures
        time matches Some(given) ==> t == given,
{
    match time {
        Some(given) => given,
        None => match get_current_epoch() {
            Ok(now) => now,
            Err(_) => 0,
        },
    }
}

/// The name of the key file written at `epoch`: the seconds and `.pgp`.
pub open spec fn key_name(epoch: u64) -> Seq<char> {
    decimal(epoch as nat) + ".pgp"@
}

/// Names the key file written at `epoch`.
pub fn key_name_at(epoch: u64) -> (name: String)
    ensures
        name@ == key_name(epoch),
{
    let mut name = to_decimal(epoch);
    name.append(".pgp");
    name
}

/// Names the key file written now.
pub fn get_key_name() -> (name: Result<String, ClockError>)
    ensures
        name matches Ok(n) ==> exists|epoch: u64| n@ == key_name(epoch),
{
    let epoch = get_current_epoch();
    key_name_of(epoch)
}

/// What a reading of the clock gives: the seconds that it read, and the
/// clock error where it read a time before the epoch.
pub fn epoch_of(reading: Option<u64>) -> (epoch: Result<u64, ClockError>)
    ensures
        epoch == match reading {
            Some(now) => Ok::<u64, ClockError>(now),
            None => Err::<u64, ClockError>(ClockError),
        },
{
    match reading {
        Some(now) => Ok(now),
        None => Err(ClockError),
    }
}

/// The name of the key file for what the clock gave: that of the epoch
/// read, and the clock's error where it gave one.
pub fn key_name_of(epoch: Result<u64, ClockError>) -> (name: Result<String, ClockError>)
    ensures
        match epoch {
            Ok(now) => name matches Ok(n) && n@ == key_name(now),
            Err(_) => name is Err,
        },
{
    match epoch {
        Ok(now) => Ok(key_name_at(now)),
        Err(e) => Err(e),
    }
}

/// The question put to the user: the prompt, then the choices between
/// square brackets with `/` between them, the first being the default, then
/// a colon and a space.
pub open spec fn choice_prompt(prompt: Seq<char>, choices: Seq<Seq<char>>) -> Seq<char> {
    prompt + " ["@ + joined(choices, "/"@) + "]: "@
}

/// Words the question of a choice.
pub fn format_choice_prompt(prompt: &str, choices: &Vec<String>) -> (line: String)
    ensures
        line@ == choice_prompt(prompt@, texts(choices@)),
{
    let mut line = String::from_str(prompt);
    line.append(" [");
    line.append(join(choices, "/").as_str());
    line.append("]: ");
    line
}

/// Whether `i` is the first place at which `choices` holds `input`.
pub open spec fn first_match(input: Seq<char>, choices: Seq<Seq<char>>, i: int) -> bool {
    &&& 0 <= i < choices.len()
    &&& choices[i] == input
    &&& forall|k: int| 0 <= k < i ==> choices[k] != input
}

/// Reads the answer `input` of a user, given without its line end, against
/// `choices`: an empty answer picks the first choice, any other answer the
/// first choice that it spells out. `None`, for an answer that spells out no
/// choice, asks for the question to be put again.
pub fn interpret_choice(input: &String, choices: &Vec<String>) -> (choice: Option<usize>)
    ensures
        input@.len() == 0 ==> choice == Some(0usize),
        input@.len() > 0 ==> match choice {
            Some(i) => first_match(input@, texts(choices@), i as int),
            None => forall|k: int| 0 <= k < choices@.len() ==> texts(choices@)[k] != input@,
        },
{
    let ghost all = texts(choices@);
    if input.as_str().is_empty() {
        return Some(0);
    }
    let mut i: usize = 0;
    while i < choices.len()
        invariant
            i <= choices.len(),
            all == texts(choices@),
            input@.len() > 0,
            forall|k: int| 0 <= k < i ==> all[k] != input@,
        decreases choices.len() - i,
    {
        if choices[i] == *input {
            proof {
                assert(all[i as int] == input@);
                assert(first_match(input@, all, i as int));
            }
            return Some(i);
        }
        i = i + 1;
    }
    None
}

} // verus!
