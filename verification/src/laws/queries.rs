//! What a query leaves in the log, and when, in terms of the query and its answer.

use crate::error::Error;
use crate::queries::{requested, run_and_log, LogEntry, LogEvent, LogRecord};
use crate::safety_rules::SafetyRules;
use crate::types::{BlockData, ConsensusState, MaybeSignedVoteProposal, Round, Signature, Vote};
use vstd::prelude::*;

verus! {

/// A log has grown by two records: that a query of `entry` about `round` came in, and
/// how it was answered.
pub open spec fn grown<R>(
    before: Seq<LogRecord>,
    after: Seq<LogRecord>,
    entry: LogEntry,
    round: Option<Round>,
    answer: Result<R, Error>,
) -> bool {
    let n = before.len() as int;
    &&& after.len() == n + 2
    &&& forall|i: int| 0 <= i < n ==> after[i] == before[i]
    &&& after[n].entry == entry
    &&& after[n].event is Request
    &&& after[n].round == round
    &&& after[n].error is None
    &&& after[n + 1].entry == entry
    &&& after[n + 1].round == round
    &&& match answer {
        Ok(_) => after[n + 1].event is Success && after[n + 1].error is None,
        Err(error) => after[n + 1].event is Error && after[n + 1].error == Some(error),
    }
}

/// A callback gave `answer` when it was run with all of `after` but its last record.
pub open spec fn ran_before_the_last_record<F, R>(
    callback: F,
    after: Seq<LogRecord>,
    answer: Result<R, Error>,
) -> bool where F: FnOnce(&Vec<LogRecord>) -> Result<R, Error> {
    exists|seen: &Vec<LogRecord>|
        seen@ == after.drop_last() && #[trigger] call_ensures(callback, (seen,), answer)
}

/// A query is answered with what its callback gave, which ran when the log held the
/// request and not yet the answer.
pub proof fn a_query_runs_between_its_two_records<F, R>(
    callback: F,
    round: Option<Round>,
    entry: LogEntry,
    log: &mut Vec<LogRecord>,
    r: Result<R, Error>,
) where F: FnOnce(&Vec<LogRecord>) -> Result<R, Error>
    requires
        call_ensures(run_and_log::<F, R>, (callback, round, entry, log), r),
    ensures
        grown(old(log)@, final(log)@, entry, round, r),
        ran_before_the_last_record(callback, final(log)@, r),
{
    assert(final(log)@.drop_last() =~= requested(old(log)@, entry, round));
}

/// The query for the consensus state is logged as such, about no round.
pub proof fn consensus_state_is_logged<F>(
    guarded: F,
    log: &mut Vec<LogRecord>,
    r: Result<ConsensusState, Error>,
) where F: FnOnce(&Vec<LogRecord>) -> Result<ConsensusState, Error>
    requires
        call_ensures(SafetyRules::consensus_state::<F>, (guarded, log), r),
    ensures
        grown(old(log)@, final(log)@, LogEntry::ConsensusState, None, r),
        ran_before_the_last_record(guarded, final(log)@, r),
{
    assert(final(log)@.drop_last() =~= requested(
        old(log)@,
        LogEntry::ConsensusState,
        None,
    ));
}

/// The query to initialize is logged as such, about no round.
pub proof fn initialize_is_logged<F>(guarded: F, log: &mut Vec<LogRecord>, r: Result<(), Error>)
    where F: FnOnce(&Vec<LogRecord>) -> Result<(), Error>
    requires
        call_ensures(SafetyRules::initialize::<F>, (guarded, log), r),
    ensures
        grown(old(log)@, final(log)@, LogEntry::Initialize, None, r),
        ran_before_the_last_record(guarded, final(log)@, r),
{
    assert(final(log)@.drop_last() =~= requested(
        old(log)@,
        LogEntry::Initialize,
        None,
    ));
}

/// The query to sign a proposal is logged as such, about the proposal's round.
pub proof fn sign_proposal_is_logged<F>(
    block_data: &BlockData,
    guarded: F,
    log: &mut Vec<LogRecord>,
    r: Result<Signature, Error>,
) where F: FnOnce(&Vec<LogRecord>) -> Result<Signature, Error>
    requires
        call_ensures(SafetyRules::sign_proposal::<F>, (block_data, guarded, log), r),
    ensures
        grown(old(log)@, final(log)@, LogEntry::SignProposal, Some(block_data.round), r),
        ran_before_the_last_record(guarded, final(log)@, r),
{
    assert(final(log)@.drop_last() =~= requested(
        old(log)@,
        LogEntry::SignProposal,
        Some(block_data.round),
    ));
}

/// The query to sign a timeout is logged as such, about the timeout's round.
pub proof fn sign_timeout_is_logged<F>(
    timeout_round: Round,
    guarded: F,
    log: &mut Vec<LogRecord>,
    r: Result<Signature, Error>,
) where F: FnOnce(&Vec<LogRecord>) -> Result<Signature, Error>
    requires
        call_ensures(SafetyRules::sign_timeout_with_qc::<F>, (timeout_round, guarded, log), r),
    ensures
        grown(old(log)@, final(log)@, LogEntry::SignTimeoutWithQC, Some(timeout_round), r),
        ran_before_the_last_record(guarded, final(log)@, r),
{
    assert(final(log)@.drop_last() =~= requested(
        old(log)@,
        LogEntry::SignTimeoutWithQC,
        Some(timeout_round),
    ));
}

/// The query to vote is logged as such, about the round of the block to vote for.
pub proof fn a_vote_is_logged<F>(
    proposal: &MaybeSignedVoteProposal,
    guarded: F,
    log: &mut Vec<LogRecord>,
    r: Result<Vote, Error>,
) where F: FnOnce(&Vec<LogRecord>) -> Result<Vote, Error>
    requires
        call_ensures(
            SafetyRules::construct_and_sign_vote_two_chain::<F>,
            (proposal, guarded, log),
            r,
        ),
    ensures
        grown(
            old(log)@,
            final(log)@,
            LogEntry::ConstructAndSignVoteTwoChain,
            Some(proposal.vote_proposal.block.round),
            r,
        ),
        ran_before_the_last_record(guarded, final(log)@, r),
{
    assert(final(log)@.drop_last() =~= requested(
        old(log)@,
        LogEntry::ConstructAndSignVoteTwoChain,
        Some(proposal.vote_proposal.block.round),
    ));
}

/// The query to sign a commit vote is logged as such, about no round.
pub proof fn sign_commit_vote_is_logged<F>(
    guarded: F,
    log: &mut Vec<LogRecord>,
    r: Result<Signature, Error>,
) where F: FnOnce(&Vec<LogRecord>) -> Result<Signature, Error>
    requires
        call_ensures(SafetyRules::sign_commit_vote::<F>, (guarded, log), r),
    ensures
        grown(old(log)@, final(log)@, LogEntry::SignCommitVote, None, r),
        ran_before_the_last_record(guarded, final(log)@, r),
{
    assert(final(log)@.drop_last() =~= requested(
        old(log)@,
        LogEntry::SignCommitVote,
        None,
    ));
}

/// The three events are counted under names of their own.
pub proof fn events_are_counted_under_their_own_names(event: LogEvent, r: &'static str)
    requires
        call_ensures(LogEvent::as_str, (event,), r),
    ensures
        event is Request <==> r@ == "request"@,
        event is Success <==> r@ == "success"@,
        event is Error <==> r@ == "error"@,
{
    reveal_strlit("request");
    reveal_strlit("success");
    reveal_strlit("error");
    assert("request"@[0] == 'r' && "success"@[0] == 's' && "error"@[0] == 'e');
}

} // verus!
