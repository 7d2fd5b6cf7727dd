//! Distributed key generation: the five rounds in which `n` parties make a
//! group key of which each keeps a share.

use crate::protocol::{polls_follow_sends, Engine, Step};
use vstd::prelude::*;

verus! {

/// The steps of a key generation, in order: sign up; commit to the share
/// polynomial and the Paillier key (stage 1) and broadcast the commitment
/// (round 1); broadcast the decommitment (round 2); check every commitment
/// and split the secret (stage 2); send each peer its share (round 3);
/// broadcast the commitments to the coefficients (round 4); check every
/// share against them and prove knowledge of the own contribution (stage
/// 3); broadcast the proof (round 5); check every proof (stage 4).
pub open spec fn keygen_script() -> Seq<Step> {
    seq![
        Step::SignUp,
        Step::Compute { stage: 1 },
        Step::Broadcast { round: 1 },
        Step::PollBroadcasts { round: 1 },
        Step::Broadcast { round: 2 },
        Step::PollBroadcasts { round: 2 },
        Step::Compute { stage: 2 },
        Step::SendP2p { round: 3 },
        Step::PollP2p { round: 3 },
        Step::Broadcast { round: 4 },
        Step::PollBroadcasts { round: 4 },
        Step::Compute { stage: 3 },
        Step::Broadcast { round: 5 },
        Step::PollBroadcasts { round: 5 },
        Step::Compute { stage: 4 },
    ]
}

/// In a key generation every poll follows at once on the writing of its
/// round, and every stage but the first follows on a poll: no stage starts
/// before the poll that feeds it has returned.
pub proof fn lemma_keygen_script()
    ensures
        polls_follow_sends(keygen_script()),
        keygen_script().len() == 15,
{
}

/// The steps of a key generation, in order.
pub fn keygen_steps() -> (steps: Vec<Step>)
    ensures
        steps@ == keygen_script(),
{
    let steps: Vec<Step> = vec![
        Step::SignUp,
        Step::Compute { stage: 1 },
        Step::Broadcast { round: 1 },
        Step::PollBroadcasts { round: 1 },
        Step::Broadcast { round: 2 },
        Step::PollBroadcasts { round: 2 },
        Step::Compute { stage: 2 },
        Step::SendP2p { round: 3 },
        Step::PollP2p { round: 3 },
        Step::Broadcast { round: 4 },
        Step::PollBroadcasts { round: 4 },
        Step::Compute { stage: 3 },
        Step::Broadcast { round: 5 },
        Step::PollBroadcasts { round: 5 },
        Step::Compute { stage: 4 },
    ];
    assert(steps@ =~= keygen_script());
    steps
}

/// An engine at the start of a key generation.
pub fn keygen_engine() -> (engine: Engine)
    ensures
        engine@ == crate::protocol::initial(keygen_script()),
        crate::protocol::engine_wf(engine@),
{
    Engine::new(keygen_steps())
}

} // verus!
