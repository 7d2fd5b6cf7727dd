//! The engine that drives a protocol run: a script of steps, each of which
//! the caller performs and reports on, with every failure fatal.

use crate::errors::ProtocolError;
use crate::text::{decimal, to_decimal};
use vstd::prelude::*;
use vstd::string::*;

verus! {

/// The parameters of a group: `share_count` parties, of which any
/// `threshold + 1` sign.
#[derive(Clone, Copy, Debug, PartialEq, Eq)]
pub struct Parameters {
    pub threshold: u16,
    pub share_count: u16,
}

impl Parameters {
    /// Whether the parameters describe a group: `0 < t < n`.
    pub open spec fn valid(self) -> bool {
        0 < self.threshold < self.share_count
    }

    /// Tests whether the parameters describe a group.
    pub fn is_valid(&self) -> (yes: bool)
        ensures
            yes == self.valid(),
    {
        0 < self.threshold && self.threshold < self.share_count
    }

    /// How many parties sign.
    pub open spec fn quorum(self) -> nat {
        self.threshold as nat + 1
    }

    /// Whether `signers` parties can sign: exactly the sets of more than
    /// `threshold` parties can.
    pub open spec fn is_quorum(self, signers: nat) -> bool {
        signers >= self.quorum()
    }

    /// Tests whether `signers` parties can sign.
    pub fn can_sign(&self, signers: usize) -> (yes: bool)
        ensures
            yes == self.is_quorum(signers as nat),
    {
        signers > self.threshold as usize
    }
}

/// In a group with threshold `t` every set of `t + 1` parties or more can
/// sign, and no set of `t` parties or fewer can.
pub proof fn lemma_quorum(params: Parameters, signers: nat)
    ensures
        signers > params.threshold ==> params.is_quorum(signers),
        signers <= params.threshold ==> !params.is_quorum(signers),
        params.is_quorum(params.quorum()),
{
}

/// Which protocol a round belongs to.
#[derive(Clone, Copy, Debug, PartialEq, Eq)]
pub enum Protocol {
    KeyGen,
    Sign,
}

/// The name of round `round` of a protocol: `dkg-round<N>` or
/// `sign-round<N>`.
pub open spec fn round_name(protocol: Protocol, round: u8) -> Seq<char> {
    match protocol {
        Protocol::KeyGen => "dkg-round"@ + decimal(round as nat),
        Protocol::Sign => "sign-round"@ + decimal(round as nat),
    }
}

/// Names round `round` of a protocol.
pub fn format_round_name(protocol: Protocol, round: u8) -> (name: String)
    ensures
        name@ == round_name(protocol, round),
{
    let mut name = match protocol {
        Protocol::KeyGen => String::from_str("dkg-round"),
        Protocol::Sign => String::from_str("sign-round"),
    };
    name.append(to_decimal(round as u64).as_str());
    name
}

/// The values of a run of readings: every one of them, in their order,
/// where each reading gave a value.
pub open spec fn all_read<T>(readings: Seq<Option<T>>) -> Option<Seq<T>> {
    if forall|i: int| 0 <= i < readings.len() ==> readings[i] is Some {
        Some(Seq::new(readings.len(), |i: int| readings[i]->0))
    } else {
        None
    }
}

/// Takes the messages of a round, each read from its text or not readable,
/// for the values of all of them or, where one was not readable, of none.
pub fn extract<T>(vals: Vec<Option<T>>) -> (res: Result<Vec<T>, ()>)
    ensures
        match res {
            Ok(values) => all_read(vals@) == Some(values@),
            Err(_) => all_read(vals@) is None,
        },
{
    let ghost all = vals@;
    let mut rest = vals;
    let mut results: Vec<T> = Vec::new();
    while rest.len() > 0
        invariant
            all == vals@,
            rest@.len() <= all.len(),
            rest@ == all.take(rest@.len() as int),
            results@.len() == all.len() - rest@.len(),
            forall|i: int|
                rest@.len() <= i < all.len() ==> all[i] is Some && results@[all.len() - 1 - i]
                    == all[i]->0,
        decreases rest.len(),
    {
        let ghost before = results@;
        let ghost n = rest@.len();
        match rest.pop() {
            Some(Some(value)) => {
                results.push(value);
                proof {
                    assert(rest@ =~= all.take(n - 1));
                    assert forall|i: int| rest@.len() <= i < all.len() implies all[i] is Some
                        && results@[all.len() - 1 - i] == all[i]->0 by {
                        if i >= n {
                            assert(results@[all.len() - 1 - i] == before[all.len() - 1 - i]);
                        }
                    }
                }
            },
            Some(None) => {
                proof {
                    assert(all[n - 1] is None);
                }
                return Err(());
            },
            None => {},
        }
    }
    let ghost reversed = results@;
    let mut values: Vec<T> = Vec::new();
    while results.len() > 0
        invariant
            results@.len() <= reversed.len(),
            results@ == reversed.take(results@.len() as int),
            values@.len() == reversed.len() - results@.len(),
            forall|i: int|
                0 <= i < values@.len() ==> values@[i] == reversed[reversed.len() - 1 - i],
        decreases results.len(),
    {
        let ghost before = values@;
        let ghost n = results@.len();
        match results.pop() {
            Some(value) => {
                values.push(value);
                proof {
                    assert(results@ =~= reversed.take(n - 1));
                    assert forall|i: int| 0 <= i < values@.len() implies values@[i]
                        == reversed[reversed.len() - 1 - i] by {
                        if i < before.len() {
                            assert(values@[i] == before[i]);
                        }
                    }
                }
            },
            None => {},
        }
    }
    proof {
        assert(values@ =~= Seq::new(all.len(), |i: int| all[i]->0));
    }
    Ok(values)
}

/// One step of a protocol run.
#[derive(Clone, Copy, Debug, PartialEq, Eq)]
pub enum Step {
    /// Ask the server for an index among the participants.
    SignUp,
    /// Run a local stage of the cryptography.
    Compute { stage: u8 },
    /// Write this party's message of a round for all to read.
    Broadcast { round: u8 },
    /// Write this party's messages of a round, one for each peer.
    SendP2p { round: u8 },
    /// Read the broadcasts of a round from every peer.
    PollBroadcasts { round: u8 },
    /// Read what every peer sent to this party in a round.
    PollP2p { round: u8 },
}

/// What the caller reports of the step it was told to perform.
#[derive(Clone, Copy, Debug, PartialEq, Eq)]
pub enum Event {
    /// The server gave this index.
    SignedUp(u16),
    /// The server gave no index.
    Refused(ProtocolError),
    /// The local stage succeeded.
    Computed,
    /// The local stage found a commitment, a share or a proof that does not
    /// verify.
    Rejected,
    /// The message was written.
    Sent,
    /// The server did not answer.
    Unreachable,
    /// Every peer's message was read.
    Collected,
}

/// How far a run is.
#[derive(Clone, Copy, Debug, PartialEq, Eq)]
pub enum Status {
    Running,
    Finished,
    Aborted(ProtocolError),
}

/// What the caller is to do next.
#[derive(Clone, Copy, Debug, PartialEq, Eq)]
pub enum Action {
    /// Perform this step and report on it.
    Perform(Step),
    /// The run is complete: keep its result.
    Finish,
    /// The run has failed: end the operation and put `Blame` in its place.
    Abort(ProtocolError),
}

/// What an engine holds.
pub struct EngineView {
    pub script: Seq<Step>,
    /// How many steps are done.
    pub done: nat,
    pub status: Status,
    /// The index that the server gave, once it has.
    pub party: Option<u16>,
}

/// An engine at the start of `script`.
pub open spec fn initial(script: Seq<Step>) -> EngineView {
    EngineView {
        script,
        done: 0,
        status: if script.len() == 0 {
            Status::Finished
        } else {
            Status::Running
        },
        party: None,
    }
}

/// Whether the engine is in a state that a run reaches: it runs while steps
/// are left, and only then.
pub open spec fn engine_wf(e: EngineView) -> bool {
    &&& e.done <= e.script.len()
    &&& e.status is Running ==> e.done < e.script.len()
    &&& e.status is Finished <==> e.done == e.script.len()
}

/// Whether `event` reports the success of `step`.
pub open spec fn succeeds(step: Step, event: Event) -> bool {
    match step {
        Step::SignUp => event is SignedUp,
        Step::Compute { .. } => event is Computed,
        Step::Broadcast { .. } => event is Sent,
        Step::SendP2p { .. } => event is Sent,
        Step::PollBroadcasts { .. } => event is Collected,
        Step::PollP2p { .. } => event is Collected,
    }
}

/// Why a run ends on `event`, reported of `step`, where the event is no
/// success: a refused sign-up for the server's reason, a server that does
/// not answer for `Connection`, and everything else, a failed verification
/// and a report that does not fit the step alike, for `Blame`.
pub open spec fn failure(step: Step, event: Event) -> ProtocolError {
    match event {
        Event::Refused(reason) => if step is SignUp {
            reason
        } else {
            ProtocolError::Blame
        },
        Event::Unreachable => if step is Compute {
            ProtocolError::Blame
        } else {
            ProtocolError::Connection
        },
        _ => ProtocolError::Blame,
    }
}

/// The engine after `event`. A run that is over stays as it is. A running
/// engine moves to its next step on the success of the current one, and is
/// finished after the last; on anything else it is aborted.
pub open spec fn advance(e: EngineView, event: Event) -> EngineView {
    if !(e.status is Running) {
        e
    } else if succeeds(e.script[e.done as int], event) {
        EngineView {
            done: e.done + 1,
            status: if e.done + 1 == e.script.len() {
                Status::Finished
            } else {
                Status::Running
            },
            party: match event {
                Event::SignedUp(index) => Some(index),
                _ => e.party,
            },
            ..e
        }
    } else {
        EngineView { status: Status::Aborted(failure(e.script[e.done as int], event)), ..e }
    }
}

/// What the caller of an engine is to do.
pub open spec fn pending(e: EngineView) -> Action {
    match e.status {
        Status::Running => Action::Perform(e.script[e.done as int]),
        Status::Finished => Action::Finish,
        Status::Aborted(reason) => Action::Abort(reason),
    }
}

/// A run never skips a step and never goes back: an event moves a running
/// engine by exactly one step or ends the run where it stands, a run that
/// is over never resumes, and every failure is fatal.
pub proof fn lemma_advance(e: EngineView, event: Event)
    requires
        engine_wf(e),
    ensures
        engine_wf(advance(e, event)),
        advance(e, event).script == e.script,
        !(e.status is Running) ==> advance(e, event) == e,
        e.status is Running && succeeds(e.script[e.done as int], event) ==> advance(e, event).done
            == e.done + 1,
        e.status is Running && !succeeds(e.script[e.done as int], event) ==> advance(
            e,
            event,
        ).status is Aborted && advance(e, event).done == e.done,
        e.status is Running && event is Rejected ==> advance(e, event).status == Status::Aborted(
            ProtocolError::Blame,
        ),
{
}

/// The engine of a protocol run.
pub struct Engine {
    script: Vec<Step>,
    done: usize,
    status: Status,
    party: Option<u16>,
}

impl View for Engine {
    type V = EngineView;

    closed spec fn view(&self) -> EngineView {
        EngineView {
            script: self.script@,
            done: self.done as nat,
            status: self.status,
            party: self.party,
        }
    }
}

impl Engine {
    /// An engine at the start of `script`.
    pub fn new(script: Vec<Step>) -> (engine: Engine)
        ensures
            engine@ == initial(script@),
            engine_wf(engine@),
    {
        let status = if script.len() == 0 {
            Status::Finished
        } else {
            Status::Running
        };
        Engine { script, done: 0, status, party: None }
    }

    /// What the caller is to do now.
    pub fn current(&self) -> (action: Action)
        requires
            engine_wf(self@),
        ensures
            action == pending(self@),
    {
        match self.status {
            Status::Running => Action::Perform(self.script[self.done]),
            Status::Finished => Action::Finish,
            Status::Aborted(reason) => Action::Abort(reason),
        }
    }

    /// Takes the caller's report of the step it performed and says what to
    /// do next.
    pub fn step(&mut self, event: Event) -> (action: Action)
        requires
            engine_wf(old(self)@),
        ensures
            final(self)@ == advance(old(self)@, event),
            engine_wf(final(self)@),
            action == pending(final(self)@),
    {
        match self.status {
            Status::Running => {
                assert(self.done < self.script.len()) by {
                    assert(self@.status is Running);
                    assert(self@.done < self@.script.len());
                }
                let step = self.script[self.done];
                let next: usize = self.done + 1;
                let ok = match step {
                    Step::SignUp => match event {
                        Event::SignedUp(_) => true,
                        _ => false,
                    },
                    Step::Compute { .. } => match event {
                        Event::Computed => true,
                        _ => false,
                    },
                    Step::Broadcast { .. } => match event {
                        Event::Sent => true,
                        _ => false,
                    },
                    Step::SendP2p { .. } => match event {
                        Event::Sent => true,
                        _ => false,
                    },
                    Step::PollBroadcasts { .. } => match event {
                        Event::Collected => true,
                        _ => false,
                    },
                    Step::PollP2p { .. } => match event {
                        Event::Collected => true,
                        _ => false,
                    },
                };
                if ok {
                    match event {
                        Event::SignedUp(index) => {
                            self.party = Some(index);
                        },
                        _ => {},
                    }
                    self.done = next;
                    if self.done == self.script.len() {
                        self.status = Status::Finished;
                    }
                } else {
                    let reason = match event {
                        Event::Refused(reason) => match step {
                            Step::SignUp => reason,
                            _ => ProtocolError::Blame,
                        },
                        Event::Unreachable => match step {
                            Step::Compute { .. } => ProtocolError::Blame,
                            _ => ProtocolError::Connection,
                        },
                        _ => ProtocolError::Blame,
                    };
                    self.status = Status::Aborted(reason);
                }
            },
            _ => {},
        }
        self.current()
    }

    /// The index that the server gave this party, once it has.
    pub fn party(&self) -> (index: Option<u16>)
        ensures
            index == self@.party,
    {
        self.party
    }

    /// How the run stands.
    pub fn status(&self) -> (status: Status)
        ensures
            status == self@.status,
    {
        self.status
    }
}

/// Whether every poll of `script` follows at once on the writing of the
/// round that it reads, and no stage but one that opens the run or follows
/// on another stage starts before a poll has returned.
pub open spec fn polls_follow_sends(script: Seq<Step>) -> bool {
    forall|i: int|
        0 <= i < script.len() ==> match #[trigger] script[i] {
            Step::PollBroadcasts { round } => i > 0 && script[i - 1] == (Step::Broadcast { round }),
            Step::PollP2p { round } => i > 0 && script[i - 1] == (Step::SendP2p { round }),
            Step::Compute { .. } => i > 0 && (script[i - 1] is SignUp || script[i - 1] is Compute
                || script[i - 1] is PollBroadcasts || script[i - 1] is PollP2p),
            _ => true,
        }
}

} // verus!
