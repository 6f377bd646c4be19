use safety_rules::error::Error;
use safety_rules::initialize::{EpochStep, KeyStep, WaypointStep};
use safety_rules::safety_rules::SafetyRules;
use safety_rules::types::{
    Author, BlockInfo, EpochState, LedgerInfo, PublicKey, SafetyData, Signature, ValidatorInfo,
    ValidatorVerifier, Waypoint,
};

fn author(name: &str) -> Author {
    Author { address: name.to_string() }
}

fn key(byte: u8) -> PublicKey {
    PublicKey { bytes: [byte; 32] }
}

fn block_info(round: u64) -> BlockInfo {
    BlockInfo { round, ordered_only: false, text: format!("block {}", round) }
}

fn epoch_state(epoch: u64, validators: Vec<(&str, u8)>) -> EpochState {
    let mut infos = Vec::new();
    for (name, byte) in validators {
        infos.push(ValidatorInfo {
            author: author(name),
            public_key: key(byte),
            voting_power: byte as u64,
        });
    }
    EpochState { epoch, verifier: ValidatorVerifier { validators: infos, quorum_voting_power: 3 } }
}

fn epoch_end(next_epoch_state: Option<EpochState>) -> LedgerInfo {
    LedgerInfo {
        commit_info: block_info(0),
        next_epoch_state,
        text: "end of epoch".to_string(),
    }
}

fn waypoint(version: u64) -> Waypoint {
    Waypoint { version, value: [version as u8; 32] }
}

fn safety_data(epoch: u64, last_voted: u64, preferred: u64, one_chain: u64) -> SafetyData {
    SafetyData::new(epoch, last_voted, preferred, one_chain, None)
}

fn initialized(execution_key: Option<PublicKey>) -> SafetyRules {
    let mut rules = SafetyRules::new(execution_key, execution_key.is_some(), false);
    let ledger_info = epoch_end(Some(epoch_state(5, vec![("alice", 1), ("bob", 2)])));
    let step = rules.guarded_initialize(Ok(waypoint(10))).ok().unwrap();
    let step = step.proof_checked(Ok(&ledger_info)).ok().unwrap();
    let step = match step.boundary(Ok(waypoint(10))).ok().unwrap() {
        WaypointStep::Keep(step) => step,
        WaypointStep::Store(_) => panic!("the waypoint is not newer"),
    };
    let step = match step.safety_data(Ok(safety_data(5, 7, 3, 4))).ok().unwrap() {
        EpochStep::Keep(step) => step,
        EpochStep::Store(_) => panic!("the epoch is not later"),
    };
    match rules.initialize_author(step, Ok(author("alice"))).ok().unwrap() {
        KeyStep::Test(step) => {
            rules.initialize_tested(step, Ok(Signature { bytes: [0; 64] })).unwrap();
        }
        _ => panic!("the key stays in storage"),
    }
    rules
}

fn ordered() -> LedgerInfo {
    LedgerInfo {
        commit_info: BlockInfo { round: 8, ordered_only: true, text: "ordered 8".to_string() },
        next_epoch_state: None,
        text: "ledger info of ordered 8".to_string(),
    }
}

fn executed() -> LedgerInfo {
    LedgerInfo {
        commit_info: BlockInfo { round: 8, ordered_only: false, text: "executed 8".to_string() },
        next_epoch_state: None,
        text: "ledger info of executed 8".to_string(),
    }
}

fn signature() -> Signature {
    Signature { bytes: [9; 64] }
}

fn sign(
    ledger_info: &LedgerInfo,
    consistent: bool,
    check: Result<(), String>,
    answer: Result<Signature, Error>,
) -> Result<Signature, Error> {
    let rules = initialized(None);
    let new_ledger_info = executed();
    let step = rules.guarded_sign_commit_vote(ledger_info, &new_ledger_info)?;
    assert_eq!(step.ordered_block(), &ledger_info.commit_info);
    assert_eq!(step.executed_block(), &new_ledger_info.commit_info);
    let step = step.execution_matched(consistent)?;
    assert_eq!(step.ledger_info(), ledger_info);
    assert_eq!(step.validators(), &epoch_state(5, vec![("alice", 1), ("bob", 2)]).verifier);
    let step = step.signatures_checked(check)?;
    assert_eq!(step.request().message(), &new_ledger_info);
    assert_eq!(step.request().signer().public_key(), key(1));
    step.signed(answer)
}

#[test]
fn an_executed_order_is_signed() {
    assert_eq!(sign(&ordered(), true, Ok(()), Ok(signature())), Ok(signature()));
}

#[test]
fn only_what_is_ordered_only_is_committed() {
    assert_eq!(
        sign(&executed(), true, Ok(()), Ok(signature())),
        Err(Error::InvalidOrderedLedgerInfo("ledger info of executed 8".to_string()))
    );
}

#[test]
fn the_order_is_tested_before_the_execution() {
    assert_eq!(
        sign(&executed(), false, Err("no quorum".to_string()), Ok(signature())),
        Err(Error::InvalidOrderedLedgerInfo("ledger info of executed 8".to_string()))
    );
}

#[test]
fn the_execution_must_match_the_order() {
    assert_eq!(
        sign(&ordered(), false, Ok(()), Ok(signature())),
        Err(Error::InconsistentExecutionResult(
            "ordered 8".to_string(),
            "executed 8".to_string()
        ))
    );
}

#[test]
fn a_quorum_must_have_signed_the_order() {
    assert_eq!(
        sign(&ordered(), true, Err("no quorum".to_string()), Ok(signature())),
        Err(Error::InvalidQuorumCertificate("no quorum".to_string()))
    );
}

#[test]
fn the_signer_may_refuse_a_commit_vote() {
    let failure = Error::SecureStorageUnexpectedError("sealed".to_string());
    assert_eq!(sign(&ordered(), true, Ok(()), Err(failure.clone())), Err(failure));
}

#[test]
fn without_a_signer_no_commit_vote_is_signed() {
    let rules = SafetyRules::new(None, false, false);
    assert_eq!(
        rules.guarded_sign_commit_vote(&executed(), &executed()).err(),
        Some(Error::NotInitialized("validator_signer".to_string()))
    );
}
