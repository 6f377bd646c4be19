//! The public interface: every query is logged and counted, once when it comes
//! in, before anything is done about it, and once when it is answered.
//!
//! The queries take the guarded request that answers them as a callback, and
//! hand its answer back as it is. The callback is given the log as it stands when
//! it runs.

use crate::error::Error;
use crate::safety_rules::SafetyRules;
use crate::types::{BlockData, ConsensusState, MaybeSignedVoteProposal, Round, Signature, Vote};
use vstd::prelude::*;

verus! {

/// The query that a log record is about.
#[derive(Debug, Clone, Copy, PartialEq, Eq, Structural)]
pub enum LogEntry {
    ConsensusState,
    ConstructAndSignVoteTwoChain,
    Initialize,
    SignCommitVote,
    SignProposal,
    SignTimeoutWithQC,
}

/// What happened to the query.
#[derive(Debug, Clone, Copy, PartialEq, Eq, Structural)]
pub enum LogEvent {
    Request,
    Success,
    Error,
}

impl LogEvent {
    /// The name that an event is counted under.
    pub fn as_str(self) -> (r: &'static str)
        ensures
            r@ == match self {
                LogEvent::Request => "request"@,
                LogEvent::Success => "success"@,
                LogEvent::Error => "error"@,
            },
    {
        match self {
            LogEvent::Request => "request",
            LogEvent::Success => "success",
            LogEvent::Error => "error",
        }
    }
}

/// A log record, by which the queries are counted too.
#[derive(Debug, Clone, PartialEq, Eq)]
pub struct LogRecord {
    pub entry: LogEntry,
    pub event: LogEvent,
    /// The round that the query is about, if it is about one.
    pub round: Option<Round>,
    /// Why the query was refused, if it was.
    pub error: Option<Error>,
}

/// The record of a query that comes in.
pub open spec fn request_record(entry: LogEntry, round: Option<Round>) -> LogRecord {
    LogRecord { entry, event: LogEvent::Request, round, error: None }
}

/// The record of a query that is answered.
pub open spec fn answer_record<R>(
    entry: LogEntry,
    round: Option<Round>,
    answer: Result<R, Error>,
) -> LogRecord {
    match answer {
        Ok(_) => LogRecord { entry, event: LogEvent::Success, round, error: None },
        Err(error) => LogRecord { entry, event: LogEvent::Error, round, error: Some(error) },
    }
}

/// A log when a query has come in.
pub open spec fn requested(
    log: Seq<LogRecord>,
    entry: LogEntry,
    round: Option<Round>,
) -> Seq<LogRecord> {
    log.push(request_record(entry, round))
}

/// A log after a query.
pub open spec fn logged<R>(
    log: Seq<LogRecord>,
    entry: LogEntry,
    round: Option<Round>,
    answer: Result<R, Error>,
) -> Seq<LogRecord> {
    requested(log, entry, round).push(answer_record(entry, round, answer))
}

/// A callback may run when the log is `log`.
pub open spec fn may_run<F, R>(callback: F, log: Seq<LogRecord>) -> bool where
    F: FnOnce(&Vec<LogRecord>) -> Result<R, Error>,
 {
    forall|seen: &Vec<LogRecord>| seen@ == log ==> #[trigger] callback.requires((seen,))
}

/// A callback that ran when the log was `log` gave `answer`.
pub open spec fn ran<F, R>(callback: F, log: Seq<LogRecord>, answer: Result<R, Error>) -> bool where
    F: FnOnce(&Vec<LogRecord>) -> Result<R, Error>,
 {
    exists|seen: &Vec<LogRecord>| seen@ == log && #[trigger] callback.ensures((seen,), answer)
}

/// Runs a query and hands its answer back, with a record in the log of the
/// request, before it runs, and one of the answer.
pub fn run_and_log<F, R>(
    callback: F,
    round: Option<Round>,
    log_entry: LogEntry,
    log: &mut Vec<LogRecord>,
) -> (r: Result<R, Error>) where F: FnOnce(&Vec<LogRecord>) -> Result<R, Error>
    requires
        may_run(callback, requested(old(log)@, log_entry, round)),
    ensures
        ran(callback, requested(old(log)@, log_entry, round), r),
        final(log)@ == logged(old(log)@, log_entry, round, r),
{
    log.push(LogRecord { entry: log_entry, event: LogEvent::Request, round, error: None });
    let answer = callback(&*log);
    let record = match &answer {
        Ok(_) => LogRecord { entry: log_entry, event: LogEvent::Success, round, error: None },
        Err(error) => LogRecord {
            entry: log_entry,
            event: LogEvent::Error,
            round,
            error: Some(error.clone()),
        },
    };
    log.push(record);
    answer
}

impl SafetyRules {
    /// Answers what the validator reports of itself.
    pub fn consensus_state<F>(guarded: F, log: &mut Vec<LogRecord>) -> (r: Result<
        ConsensusState,
        Error,
    >) where F: FnOnce(&Vec<LogRecord>) -> Result<ConsensusState, Error>
        requires
            may_run(guarded, requested(old(log)@, LogEntry::ConsensusState, None)),
        ensures
            ran(guarded, requested(old(log)@, LogEntry::ConsensusState, None), r),
            final(log)@ == logged(old(log)@, LogEntry::ConsensusState, None, r),
    {
        run_and_log(guarded, None, LogEntry::ConsensusState, log)
    }

    /// Answers a request to initialize.
    pub fn initialize<F>(guarded: F, log: &mut Vec<LogRecord>) -> (r: Result<
        (),
        Error,
    >) where F: FnOnce(&Vec<LogRecord>) -> Result<(), Error>
        requires
            may_run(guarded, requested(old(log)@, LogEntry::Initialize, None)),
        ensures
            ran(guarded, requested(old(log)@, LogEntry::Initialize, None), r),
            final(log)@ == logged(old(log)@, LogEntry::Initialize, None, r),
    {
        run_and_log(guarded, None, LogEntry::Initialize, log)
    }

    /// Answers a request to sign a proposal.
    pub fn sign_proposal<F>(
        block_data: &BlockData,
        guarded: F,
        log: &mut Vec<LogRecord>,
    ) -> (r: Result<Signature, Error>) where F: FnOnce(&Vec<LogRecord>) -> Result<Signature, Error>
        requires
            may_run(guarded, requested(old(log)@, LogEntry::SignProposal, Some(block_data.round))),
        ensures
            ran(guarded, requested(old(log)@, LogEntry::SignProposal, Some(block_data.round)), r),
            final(log)@ == logged(
                old(log)@,
                LogEntry::SignProposal,
                Some(block_data.round),
                r,
            ),
    {
        run_and_log(guarded, Some(block_data.round), LogEntry::SignProposal, log)
    }

    /// Answers a request to sign a timeout of `timeout_round`.
    pub fn sign_timeout_with_qc<F>(
        timeout_round: Round,
        guarded: F,
        log: &mut Vec<LogRecord>,
    ) -> (r: Result<Signature, Error>) where F: FnOnce(&Vec<LogRecord>) -> Result<Signature, Error>
        requires
            may_run(
                guarded,
                requested(
                    old(log)@,
                    LogEntry::SignTimeoutWithQC,
                    Some(timeout_round),
                ),
            ),
        ensures
            ran(guarded, requested(old(log)@, LogEntry::SignTimeoutWithQC, Some(timeout_round)), r),
            final(log)@ == logged(
                old(log)@,
                LogEntry::SignTimeoutWithQC,
                Some(timeout_round),
                r,
            ),
    {
        run_and_log(guarded, Some(timeout_round), LogEntry::SignTimeoutWithQC, log)
    }

    /// Answers a request to vote for a proposal.
    pub fn construct_and_sign_vote_two_chain<F>(
        maybe_signed_vote_proposal: &MaybeSignedVoteProposal,
        guarded: F,
        log: &mut Vec<LogRecord>,
    ) -> (r: Result<Vote, Error>) where F: FnOnce(&Vec<LogRecord>) -> Result<Vote, Error>
        requires
            may_run(
                guarded,
                requested(
                    old(log)@,
                    LogEntry::ConstructAndSignVoteTwoChain,
                    Some(maybe_signed_vote_proposal.vote_proposal.block.round),
                ),
            ),
        ensures
            ran(
                guarded,
                requested(
                    old(log)@,
                    LogEntry::ConstructAndSignVoteTwoChain,
                    Some(maybe_signed_vote_proposal.vote_proposal.block.round),
                ),
                r,
            ),
            final(log)@ == logged(
                old(log)@,
                LogEntry::ConstructAndSignVoteTwoChain,
                Some(maybe_signed_vote_proposal.vote_proposal.block.round),
                r,
            ),
    {
        let round: Round = maybe_signed_vote_proposal.vote_proposal.block.round;
        run_and_log(guarded, Some(round), LogEntry::ConstructAndSignVoteTwoChain, log)
    }

    /// Answers a request to sign a commit vote.
    pub fn sign_commit_vote<F>(guarded: F, log: &mut Vec<LogRecord>) -> (r: Result<
        Signature,
        Error,
    >) where F: FnOnce(&Vec<LogRecord>) -> Result<Signature, Error>
        requires
            may_run(guarded, requested(old(log)@, LogEntry::SignCommitVote, None)),
        ensures
            ran(guarded, requested(old(log)@, LogEntry::SignCommitVote, None), r),
            final(log)@ == logged(old(log)@, LogEntry::SignCommitVote, None, r),
    {
        run_and_log(guarded, None, LogEntry::SignCommitVote, log)
    }
}

} // verus!
