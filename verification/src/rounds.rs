//! What a request changed in the rounds that a validator remembers, for the
//! reports on it.

use crate::types::{Round, SafetyData};
use vstd::prelude::*;

verus! {

/// The rounds that safety data remembers.
#[derive(Debug, Clone, Copy, PartialEq, Eq, Structural)]
pub struct RememberedRounds {
    pub last_voted_round: Round,
    pub preferred_round: Round,
    pub one_chain_round: Round,
}

/// A remembered round that has risen, and what it is now.
#[derive(Debug, Clone, Copy, PartialEq, Eq, Structural)]
pub enum RoundUpdate {
    OneChainRound(Round),
    PreferredRound(Round),
    LastVotedRound(Round),
}

/// The rounds that `safety_data` remembers.
pub open spec fn rounds_of(safety_data: SafetyData) -> RememberedRounds {
    RememberedRounds {
        last_voted_round: safety_data.last_voted_round,
        preferred_round: safety_data.preferred_round,
        one_chain_round: safety_data.one_chain_round,
    }
}

/// `update`, if a round has risen from `before` to `after`.
pub open spec fn risen(before: Round, after: Round, update: RoundUpdate) -> Seq<RoundUpdate> {
    if after > before {
        seq![update]
    } else {
        seq![]
    }
}

/// What has risen from `before` to `after`.
pub open spec fn round_updates(before: RememberedRounds, after: RememberedRounds) -> Seq<
    RoundUpdate,
> {
    risen(
        before.one_chain_round,
        after.one_chain_round,
        RoundUpdate::OneChainRound(after.one_chain_round),
    ) + risen(
        before.preferred_round,
        after.preferred_round,
        RoundUpdate::PreferredRound(after.preferred_round),
    ) + risen(
        before.last_voted_round,
        after.last_voted_round,
        RoundUpdate::LastVotedRound(after.last_voted_round),
    )
}

impl RememberedRounds {
    /// The rounds that `safety_data` remembers.
    pub fn of(safety_data: &SafetyData) -> (r: Self)
        ensures
            r == rounds_of(*safety_data),
    {
        RememberedRounds {
            last_voted_round: safety_data.last_voted_round,
            preferred_round: safety_data.preferred_round,
            one_chain_round: safety_data.one_chain_round,
        }
    }

    /// What has risen since these rounds were remembered.
    pub fn updates(self, safety_data: &SafetyData) -> (r: Vec<RoundUpdate>)
        ensures
            r@ == round_updates(self, rounds_of(*safety_data)),
    {
        let mut updates: Vec<RoundUpdate> = Vec::new();
        if safety_data.one_chain_round > self.one_chain_round {
            updates.push(RoundUpdate::OneChainRound(safety_data.one_chain_round));
        }
        if safety_data.preferred_round > self.preferred_round {
            updates.push(RoundUpdate::PreferredRound(safety_data.preferred_round));
        }
        if safety_data.last_voted_round > self.last_voted_round {
            updates.push(RoundUpdate::LastVotedRound(safety_data.last_voted_round));
        }
        updates
    }
}

} // verus!
