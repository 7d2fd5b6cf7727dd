//! The message channel: what is written to the rendezvous server and read
//! back from it, in which order, and how often a request is tried.

use crate::errors::ProtocolError;
use crate::text::{decimal, to_decimal};
use vstd::prelude::*;
use vstd::string::*;

verus! {

/// The name of a mailbox entry.
pub type Key = String;

/// The answer to a sign-up: the index of the participant, counted from one.
#[derive(Clone, PartialEq, Debug)]
pub struct PartySignup {
    pub number: u16,
}

/// A request to read the mailbox entry `key`.
#[derive(Clone, PartialEq, Debug)]
pub struct Index {
    pub key: Key,
}

/// A mailbox entry.
#[derive(Clone, PartialEq, Debug)]
pub struct Entry {
    pub key: Key,
    pub value: String,
}

/// The key under which `party` broadcasts in `round`: `<party>-<round>`.
pub open spec fn broadcast_key(party: u16, round: Seq<char>) -> Seq<char> {
    decimal(party as nat) + "-"@ + round
}

/// The key under which `from` writes to `to` in `round`:
/// `<from>-<to>-<round>`.
pub open spec fn p2p_key(from: u16, to: u16, round: Seq<char>) -> Seq<char> {
    decimal(from as nat) + "-"@ + decimal(to as nat) + "-"@ + round
}

/// The parties `1..=n` without `me`, in ascending order.
pub open spec fn peers(me: u16, n: u16) -> Seq<u16>
    decreases n,
{
    if n == 0 {
        Seq::empty()
    } else if n == me {
        peers(me, (n - 1) as u16)
    } else {
        peers(me, (n - 1) as u16).push(n)
    }
}

/// The peers of `me` among `n` parties are the parties from one to `n` but
/// `me`, each once, the smaller before the larger.
pub proof fn lemma_peers(me: u16, n: u16)
    ensures
        peers(me, n).len() == if 1 <= me <= n {
            n - 1
        } else {
            n as int
        },
        forall|k: int| 0 <= k < peers(me, n).len() ==> 1 <= #[trigger] peers(me, n)[k] <= n
            && peers(me, n)[k] != me,
        forall|k: int, l: int| 0 <= k < l < peers(me, n).len() ==> peers(me, n)[k] < peers(me, n)[l],
        forall|p: u16| 1 <= p <= n && p != me ==> peers(me, n).contains(p),
    decreases n,
{
    if n > 0 {
        let less = peers(me, (n - 1) as u16);
        lemma_peers(me, (n - 1) as u16);
        if n != me {
            assert forall|p: u16| 1 <= p <= n && p != me implies peers(me, n).contains(p) by {
                if p == n {
                    assert(peers(me, n)[less.len() as int] == n);
                } else {
                    assert(less.contains(p));
                    let k = choose|k: int| 0 <= k < less.len() && less[k] == p;
                    assert(peers(me, n)[k] == p);
                }
            }
        }
    }
}

/// The key under which `party` broadcasts in `round`.
pub fn format_broadcast_key(party: u16, round: &str) -> (key: String)
    ensures
        key@ == broadcast_key(party, round@),
{
    let mut key = to_decimal(party as u64);
    key.append("-");
    key.append(round);
    key
}

/// The key under which `from` writes to `to` in `round`.
pub fn format_p2p_key(from: u16, to: u16, round: &str) -> (key: String)
    ensures
        key@ == p2p_key(from, to, round@),
{
    let mut key = to_decimal(from as u64);
    key.append("-");
    key.append(to_decimal(to as u64).as_str());
    key.append("-");
    key.append(round);
    key
}

/// The parties `1..=n` without `me`, in ascending order.
pub fn poll_order(me: u16, n: u16) -> (order: Vec<u16>)
    ensures
        order@ == peers(me, n),
{
    let mut order: Vec<u16> = Vec::new();
    let mut i: u16 = 0;
    while i < n
        invariant
            i <= n,
            order@ == peers(me, i),
        decreases n - i,
    {
        i = i + 1;
        if i != me {
            order.push(i);
        }
    }
    order
}

/// What a request that got no answer is followed by.
#[derive(Clone, Copy, Debug, PartialEq, Eq)]
pub enum RetryStep {
    /// The same request again, after so many milliseconds.
    Again { delay_ms: u64 },
    /// No further attempt: the connection has failed.
    GiveUp,
}

/// What a poll does next.
#[derive(Debug)]
pub enum PollStep {
    /// Ask the server for this entry.
    Ask(Index),
    /// The entry asked for is not there yet: ask again after so many
    /// milliseconds.
    Wait { delay_ms: u64 },
    /// Every entry was read.
    Done,
}

/// The settings of a channel to the rendezvous server.
#[derive(Debug, Clone)]
pub struct HTTPChannel {
    pub address: String,
    pub retries: u8,
    pub retry_delay_ms: u64,
    pub project: String,
}

impl HTTPChannel {
    /// A channel to `server` for `project`: a request is tried three times,
    /// a quarter of a second apart.
    pub fn new(server: String, project: String) -> (channel: HTTPChannel)
        ensures
            channel.address == server,
            channel.project == project,
            channel.retries == 3,
            channel.retry_delay_ms == 250,
    {
        HTTPChannel { address: server, retries: 3, retry_delay_ms: 250, project }
    }

    /// The address of the endpoint `path`: the server's address, a slash and
    /// the path.
    pub fn endpoint(&self, path: &str) -> (url: String)
        ensures
            url@ == self.address@ + "/"@ + path@,
    {
        let mut url = self.address.clone();
        url.append("/");
        url.append(path);
        url
    }

    /// What follows the `failures`-th attempt of a request that got no
    /// answer: another attempt after the channel's delay while fewer than
    /// `retries` attempts were made, and no further attempt after that.
    pub fn after_failure(&self, failures: u8) -> (step: RetryStep)
        ensures
            failures < self.retries ==> step == (RetryStep::Again {
                delay_ms: self.retry_delay_ms,
            }),
            failures >= self.retries ==> step == RetryStep::GiveUp,
    {
        if failures < self.retries {
            RetryStep::Again { delay_ms: self.retry_delay_ms }
        } else {
            RetryStep::GiveUp
        }
    }

    /// The entry that `party_num` writes to broadcast `data` in `round`.
    pub fn broadcast_entry(&self, party_num: u16, round: &str, data: String) -> (entry: Entry)
        ensures
            entry.key@ == broadcast_key(party_num, round@),
            entry.value == data,
    {
        Entry { key: format_broadcast_key(party_num, round), value: data }
    }

    /// The entry that `party_from` writes to send `data` to `party_to` in
    /// `round`.
    pub fn p2p_entry(&self, party_from: u16, party_to: u16, round: &str, data: String) -> (entry:
        Entry)
        ensures
            entry.key@ == p2p_key(party_from, party_to, round@),
            entry.value == data,
    {
        Entry { key: format_p2p_key(party_from, party_to, round), value: data }
    }

    /// The entries that `party_num` reads to collect the broadcasts of
    /// `round` from its peers among `n` parties, in ascending order of the
    /// peers.
    pub fn broadcast_indices(&self, party_num: u16, n: u16, round: &str) -> (indices: Vec<Index>)
        ensures
            indices@.len() == peers(party_num, n).len(),
            forall|k: int| 0 <= k < indices@.len() ==> (#[trigger] indices@[k]).key@ == broadcast_key(
                peers(party_num, n)[k],
                round@,
            ),
    {
        let order = poll_order(party_num, n);
        let mut indices: Vec<Index> = Vec::new();
        let mut k: usize = 0;
        while k < order.len()
            invariant
                k <= order.len(),
                order@ == peers(party_num, n),
                indices@.len() == k,
                forall|j: int| 0 <= j < k ==> (#[trigger] indices@[j]).key@ == broadcast_key(
                    order@[j],
                    round@,
                ),
            decreases order.len() - k,
        {
            indices.push(Index { key: format_broadcast_key(order[k], round) });
            k = k + 1;
        }
        indices
    }

    /// The entries that `party_num` reads to collect what its peers among
    /// `n` parties sent it in `round`, in ascending order of the peers.
    pub fn p2p_indices(&self, party_num: u16, n: u16, round: &str) -> (indices: Vec<Index>)
        ensures
            indices@.len() == peers(party_num, n).len(),
            forall|k: int| 0 <= k < indices@.len() ==> (#[trigger] indices@[k]).key@ == p2p_key(
                peers(party_num, n)[k],
                party_num,
                round@,
            ),
    {
        let order = poll_order(party_num, n);
        let mut indices: Vec<Index> = Vec::new();
        let mut k: usize = 0;
        while k < order.len()
            invariant
                k <= order.len(),
                order@ == peers(party_num, n),
                indices@.len() == k,
                forall|j: int| 0 <= j < k ==> (#[trigger] indices@[j]).key@ == p2p_key(
                    order@[j],
                    party_num,
                    round@,
                ),
            decreases order.len() - k,
        {
            indices.push(Index { key: format_p2p_key(order[k], party_num, round) });
            k = k + 1;
        }
        indices
    }

    /// The index that the answer to a sign-up gives: none for a server that
    /// did not answer, `Full` for a server that refused.
    pub fn signup_result(&self, answer: Option<Result<PartySignup, ()>>) -> (res: Result<
        u16,
        ProtocolError,
    >)
        ensures
            res == match answer {
                None => Err::<u16, ProtocolError>(ProtocolError::Connection),
                Some(Err(_)) => Err::<u16, ProtocolError>(ProtocolError::Full),
                Some(Ok(signup)) => Ok::<u16, ProtocolError>(signup.number),
            },
    {
        match answer {
            None => Err(ProtocolError::Connection),
            Some(Err(_)) => Err(ProtocolError::Full),
            Some(Ok(signup)) => Ok(signup.number),
        }
    }
}

/// A poll under way: the entries to read, in order, and the payloads read so
/// far.
pub struct Poll {
    indices: Vec<Index>,
    answers: Vec<String>,
    delay_ms: u64,
}

/// What a poll holds.
pub struct PollView {
    /// The keys of the entries to read, in order.
    pub keys: Seq<Seq<char>>,
    /// The payloads read so far: that of the first key first.
    pub answers: Seq<Seq<char>>,
    pub delay_ms: u64,
}

impl View for Poll {
    type V = PollView;

    closed spec fn view(&self) -> PollView {
        PollView {
            keys: self.indices@.map_values(|i: Index| i.key@),
            answers: self.answers@.map_values(|s: String| s@),
            delay_ms: self.delay_ms,
        }
    }
}

/// Whether the poll has read no more than it was to read.
pub open spec fn poll_wf(p: PollView) -> bool {
    p.answers.len() <= p.keys.len()
}

/// Whether the poll has read every entry.
pub open spec fn poll_complete(p: PollView) -> bool {
    p.answers.len() == p.keys.len()
}

impl Poll {
    /// A poll for `indices`, which waits `delay_ms` milliseconds before it
    /// asks again for an entry that is not there yet.
    pub fn new(indices: Vec<Index>, delay_ms: u64) -> (poll: Poll)
        ensures
            poll@.keys == indices@.map_values(|i: Index| i.key@),
            poll@.answers == Seq::<Seq<char>>::empty(),
            poll@.delay_ms == delay_ms,
            poll_wf(poll@),
    {
        let poll = Poll { indices, answers: Vec::new(), delay_ms };
        proof {
            assert(poll@.answers =~= Seq::<Seq<char>>::empty());
        }
        poll
    }

    /// What to ask next: the first entry not read yet, and nothing once all
    /// are read.
    pub fn next(&self) -> (step: PollStep)
        requires
            poll_wf(self@),
        ensures
            poll_complete(self@) <==> step is Done,
            !poll_complete(self@) ==> (step matches PollStep::Ask(index) && index.key@
                == self@.keys[self@.answers.len() as int]),
    {
        let k = self.answers.len();
        if k < self.indices.len() {
            PollStep::Ask(Index { key: self.indices[k].key.clone() })
        } else {
            PollStep::Done
        }
    }

    /// Takes the server's answer to the entry asked for. An entry that is
    /// there is read, and the poll moves on to the next. An entry that is
    /// not there yet leaves the poll where it is, to ask again after the
    /// delay, however often that has happened before.
    pub fn deliver(&mut self, answer: Result<Entry, ()>) -> (step: PollStep)
        requires
            poll_wf(old(self)@),
            !poll_complete(old(self)@),
        ensures
            poll_wf(final(self)@),
            final(self)@.keys == old(self)@.keys,
            final(self)@.delay_ms == old(self)@.delay_ms,
            match answer {
                Ok(entry) => {
                    let now = final(self)@;
                    &&& now.answers == old(self)@.answers.push(entry.value@)
                    &&& poll_complete(now) <==> step is Done
                    &&& !poll_complete(now) ==> (step matches PollStep::Ask(index) && index.key@
                        == now.keys[now.answers.len() as int])
                },
                Err(_) => final(self)@.answers == old(self)@.answers && step == (PollStep::Wait {
                    delay_ms: old(self)@.delay_ms,
                }),
            },
    {
        match answer {
            Ok(entry) => {
                let ghost before = self@.answers;
                self.answers.push(entry.value);
                proof {
                    assert(self@.answers =~= before.push(entry.value@));
                }
                self.next()
            },
            Err(_) => PollStep::Wait { delay_ms: self.delay_ms },
        }
    }

    /// The payloads read, that of the first entry first.
    pub fn finish(self) -> (answers: Vec<String>)
        ensures
            answers@.map_values(|s: String| s@) == self@.answers,
    {
        self.answers
    }
}

} // verus!
