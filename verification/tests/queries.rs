use safety_rules::error::Error;
use safety_rules::queries::{run_and_log, LogEntry, LogEvent, LogRecord};
use safety_rules::safety_rules::SafetyRules;
use safety_rules::types::{
    Author, BlockData, BlockInfo, ConsensusState, MaybeSignedVoteProposal, QuorumCert, SafetyData,
    Signature, Vote, VoteProposal, Waypoint,
};

fn block(round: u64) -> BlockData {
    let info = BlockInfo { round: 0, ordered_only: false, text: String::new() };
    BlockData {
        author: None,
        epoch: 1,
        round,
        quorum_cert: QuorumCert { certified_block: info.clone(), parent_block: info },
    }
}

fn records(entry: LogEntry, round: Option<u64>, error: Option<Error>) -> Vec<LogRecord> {
    let event = if error.is_some() { LogEvent::Error } else { LogEvent::Success };
    vec![
        LogRecord { entry, event: LogEvent::Request, round, error: None },
        LogRecord { entry, event, round, error },
    ]
}

fn waypoint() -> Waypoint {
    Waypoint { version: 3, value: [0; 32] }
}

fn safety_data(last_voted_round: u64) -> SafetyData {
    SafetyData::new(1, last_voted_round, 0, 0, None)
}

fn author() -> Author {
    Author { address: "alice".to_string() }
}

fn failure(text: &str) -> Error {
    Error::SecureStorageUnexpectedError(text.to_string())
}

#[test]
fn an_answer_is_handed_back_and_logged() {
    let mut log = Vec::new();
    let answer = run_and_log(|_| Ok(7u8), Some(4), LogEntry::SignProposal, &mut log);
    assert_eq!(answer, Ok(7));
    assert_eq!(log, records(LogEntry::SignProposal, Some(4), None));
    let answer: Result<u8, Error> =
        run_and_log(|_| Err(Error::InvalidLedgerInfo), None, LogEntry::Initialize, &mut log);
    assert_eq!(answer, Err(Error::InvalidLedgerInfo));
    assert_eq!(log.len(), 4);
    assert_eq!(
        log[2..].to_vec(),
        records(LogEntry::Initialize, None, Some(Error::InvalidLedgerInfo))
    );
}

fn request(entry: LogEntry, round: Option<u64>) -> Vec<LogRecord> {
    vec![LogRecord { entry, event: LogEvent::Request, round, error: None }]
}

#[test]
fn a_request_is_logged_before_it_runs() {
    let mut log = Vec::new();
    let mut seen = Vec::new();
    let _ = run_and_log(
        |log| {
            seen = log.clone();
            Ok(())
        },
        Some(4),
        LogEntry::SignProposal,
        &mut log,
    );
    assert_eq!(seen, request(LogEntry::SignProposal, Some(4)));
    assert_eq!(log, records(LogEntry::SignProposal, Some(4), None));
    let _: Result<(), Error> = run_and_log(
        |log| {
            seen = log.clone();
            Err(failure("sealed"))
        },
        None,
        LogEntry::Initialize,
        &mut log,
    );
    assert_eq!(seen.len(), 3);
    assert_eq!(seen[2..].to_vec(), request(LogEntry::Initialize, None));
    assert_eq!(log.len(), 4);
}

#[test]
fn every_query_is_logged_before_it_runs() {
    let mut seen = Vec::new();
    let _ = SafetyRules::consensus_state(
        |log| {
            seen = log.clone();
            Err(failure("sealed"))
        },
        &mut Vec::new(),
    );
    assert_eq!(seen, request(LogEntry::ConsensusState, None));
    let _ = SafetyRules::initialize(
        |log| {
            seen = log.clone();
            Ok(())
        },
        &mut Vec::new(),
    );
    assert_eq!(seen, request(LogEntry::Initialize, None));
    let _ = SafetyRules::sign_proposal(
        &block(9),
        |log| {
            seen = log.clone();
            Err(failure("sealed"))
        },
        &mut Vec::new(),
    );
    assert_eq!(seen, request(LogEntry::SignProposal, Some(9)));
    let _ = SafetyRules::sign_timeout_with_qc(
        6,
        |log| {
            seen = log.clone();
            Err(failure("sealed"))
        },
        &mut Vec::new(),
    );
    assert_eq!(seen, request(LogEntry::SignTimeoutWithQC, Some(6)));
    let proposal = MaybeSignedVoteProposal {
        vote_proposal: VoteProposal { block: block(5) },
        signature: None,
    };
    let _ = SafetyRules::construct_and_sign_vote_two_chain(
        &proposal,
        |log| {
            seen = log.clone();
            Err(failure("sealed"))
        },
        &mut Vec::new(),
    );
    assert_eq!(seen, request(LogEntry::ConstructAndSignVoteTwoChain, Some(5)));
    let _ = SafetyRules::sign_commit_vote(
        |log| {
            seen = log.clone();
            Err(failure("sealed"))
        },
        &mut Vec::new(),
    );
    assert_eq!(seen, request(LogEntry::SignCommitVote, None));
}

#[test]
fn events_are_counted_by_name() {
    assert_eq!(LogEvent::Request.as_str(), "request");
    assert_eq!(LogEvent::Success.as_str(), "success");
    assert_eq!(LogEvent::Error.as_str(), "error");
}

#[test]
fn every_query_has_its_entry_and_round() {
    let signature = Signature { bytes: [1; 64] };
    let mut log = Vec::new();
    assert_eq!(SafetyRules::initialize(|_| Ok(()), &mut log), Ok(()));
    assert_eq!(log, records(LogEntry::Initialize, None, None));

    let mut log = Vec::new();
    assert_eq!(
        SafetyRules::sign_proposal(&block(9), |_| Ok(signature), &mut log),
        Ok(signature)
    );
    assert_eq!(log, records(LogEntry::SignProposal, Some(9), None));

    let mut log = Vec::new();
    assert_eq!(
        SafetyRules::sign_timeout_with_qc(6, |_| Ok(signature), &mut log),
        Ok(signature)
    );
    assert_eq!(log, records(LogEntry::SignTimeoutWithQC, Some(6), None));

    let mut log = Vec::new();
    let proposal = MaybeSignedVoteProposal {
        vote_proposal: VoteProposal { block: block(5) },
        signature: None,
    };
    let vote = Vote { encoded: vec![1] };
    assert_eq!(
        SafetyRules::construct_and_sign_vote_two_chain(&proposal, |_| Ok(vote.clone()), &mut log),
        Ok(vote.clone())
    );
    assert_eq!(log, records(LogEntry::ConstructAndSignVoteTwoChain, Some(5), None));

    let mut log = Vec::new();
    assert_eq!(
        SafetyRules::sign_commit_vote(|_| Err(failure("sealed")), &mut log),
        Err(failure("sealed"))
    );
    assert_eq!(log, records(LogEntry::SignCommitVote, None, Some(failure("sealed"))));
}

#[test]
fn requests_and_answers_balance() {
    let mut log = Vec::new();
    for round in vec![1u64, 2, 3, 4, 5] {
        let _ = run_and_log(
            |_| if round % 2 == 0 { Ok(()) } else { Err(Error::IncorrectRound(round)) },
            Some(round),
            LogEntry::SignProposal,
            &mut log,
        );
    }
    let count = |event| log.iter().filter(|record| record.event == event).count();
    assert_eq!(count(LogEvent::Request), 5);
    assert_eq!(count(LogEvent::Success), 2);
    assert_eq!(count(LogEvent::Error), 3);
}

fn report(
    rules: &SafetyRules,
    first_waypoint: Result<Waypoint, Error>,
    first_data: Result<SafetyData, Error>,
    who: Result<Author, Error>,
    second_data: Result<SafetyData, Error>,
    second_waypoint: Result<Waypoint, Error>,
) -> Result<ConsensusState, Error> {
    rules
        .guarded_consensus_state(first_waypoint)?
        .safety_data(first_data)?
        .author(who)?
        .safety_data(second_data)?
        .waypoint(second_waypoint)
}

#[test]
fn the_state_is_that_of_the_second_reads() {
    let rules = SafetyRules::new(None, false, false);
    let mut log = Vec::new();
    let later = Waypoint { version: 4, value: [0; 32] };
    let answer = SafetyRules::consensus_state(
        |_| {
            report(
                &rules,
                Ok(waypoint()),
                Ok(safety_data(1)),
                Ok(author()),
                Ok(safety_data(2)),
                Ok(later),
            )
        },
        &mut log,
    );
    assert_eq!(
        answer,
        Ok(ConsensusState {
            safety_data: safety_data(2),
            waypoint: later,
            in_validator_set: false
        })
    );
    assert_eq!(log, records(LogEntry::ConsensusState, None, None));
}

#[test]
fn the_first_failed_read_is_the_refusal() {
    let rules = SafetyRules::new(None, false, false);
    let state = |failed: usize| {
        let fails = |i: usize| i >= failed;
        report(
            &rules,
            if fails(0) { Err(failure("a")) } else { Ok(waypoint()) },
            if fails(1) { Err(failure("b")) } else { Ok(safety_data(1)) },
            if fails(2) { Err(failure("c")) } else { Ok(author()) },
            if fails(3) { Err(failure("d")) } else { Ok(safety_data(1)) },
            if fails(4) { Err(failure("e")) } else { Ok(waypoint()) },
        )
    };
    assert_eq!(state(0), Err(failure("a")));
    assert_eq!(state(1), Err(failure("b")));
    assert_eq!(state(2), Err(failure("c")));
    assert_eq!(state(3), Err(failure("d")));
    assert_eq!(state(4), Err(failure("e")));
    assert!(state(5).is_ok());
}
