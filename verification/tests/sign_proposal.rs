use safety_rules::error::Error;
use safety_rules::initialize::{EpochStep, KeyStep, WaypointStep};
use safety_rules::rounds::RoundUpdate;
use safety_rules::safety_rules::SafetyRules;
use safety_rules::types::{
    Author, BlockData, BlockInfo, EpochState, LedgerInfo, PublicKey, QuorumCert, SafetyData,
    Signature, ValidatorInfo, ValidatorVerifier, Waypoint,
};

fn author(name: &str) -> Author {
    Author { address: name.to_string() }
}

fn key(byte: u8) -> PublicKey {
    PublicKey { bytes: [byte; 32] }
}

fn block_info(round: u64) -> BlockInfo {
    BlockInfo { round, ordered_only: false, text: format!("block {}", round) }
}

fn epoch_state(epoch: u64, validators: Vec<(&str, u8)>) -> EpochState {
    let mut infos = Vec::new();
    for (name, byte) in validators {
        infos.push(ValidatorInfo {
            author: author(name),
            public_key: key(byte),
            voting_power: byte as u64,
        });
    }
    EpochState { epoch, verifier: ValidatorVerifier { validators: infos, quorum_voting_power: 3 } }
}

fn epoch_end(next_epoch_state: Option<EpochState>) -> LedgerInfo {
    LedgerInfo {
        commit_info: block_info(0),
        next_epoch_state,
        text: "end of epoch".to_string(),
    }
}

fn waypoint(version: u64) -> Waypoint {
    Waypoint { version, value: [version as u8; 32] }
}

fn safety_data(epoch: u64, last_voted: u64, preferred: u64, one_chain: u64) -> SafetyData {
    SafetyData::new(epoch, last_voted, preferred, one_chain, None)
}

fn initialized(execution_key: Option<PublicKey>) -> SafetyRules {
    let mut rules = SafetyRules::new(execution_key, execution_key.is_some(), false);
    let ledger_info = epoch_end(Some(epoch_state(5, vec![("alice", 1), ("bob", 2)])));
    let step = rules.guarded_initialize(Ok(waypoint(10))).ok().unwrap();
    let step = step.proof_checked(Ok(&ledger_info)).ok().unwrap();
    let step = match step.boundary(Ok(waypoint(10))).ok().unwrap() {
        WaypointStep::Keep(step) => step,
        WaypointStep::Store(_) => panic!("the waypoint is not newer"),
    };
    let step = match step.safety_data(Ok(safety_data(5, 7, 3, 4))).ok().unwrap() {
        EpochStep::Keep(step) => step,
        EpochStep::Store(_) => panic!("the epoch is not later"),
    };
    match rules.initialize_author(step, Ok(author("alice"))).ok().unwrap() {
        KeyStep::Test(step) => {
            rules.initialize_tested(step, Ok(Signature { bytes: [0; 64] })).unwrap();
        }
        _ => panic!("the key stays in storage"),
    }
    rules
}

fn proposal(by: Option<&str>, epoch: u64, round: u64, certified: u64) -> BlockData {
    BlockData {
        author: by.map(author),
        epoch,
        round,
        quorum_cert: QuorumCert {
            certified_block: block_info(certified),
            parent_block: block_info(certified - 1),
        },
    }
}

fn sign(
    block: &BlockData,
    read: Result<SafetyData, Error>,
    check: Result<(), String>,
    signature: Result<Signature, Error>,
) -> Result<Signature, Error> {
    let rules = initialized(None);
    let step = rules.guarded_sign_proposal(block)?;
    let step = step.safety_data(read)?;
    assert_eq!(step.quorum_cert(), &block.quorum_cert);
    assert_eq!(step.validators(), &epoch_state(5, vec![("alice", 1), ("bob", 2)]).verifier);
    let step = step.quorum_cert_checked(check)?;
    assert_eq!(step.request().message(), block);
    assert_eq!(step.request().signer().author(), &author("alice"));
    assert_eq!(step.request().signer().public_key(), key(1));
    step.signed(signature)
}

fn signature() -> Signature {
    Signature { bytes: [9; 64] }
}

#[test]
fn a_proposal_that_meets_every_rule_is_signed() {
    let block = proposal(Some("alice"), 5, 8, 3);
    let answer = sign(&block, Ok(safety_data(5, 7, 3, 4)), Ok(()), Ok(signature()));
    assert_eq!(answer, Ok(signature()));
}

#[test]
fn what_the_certificate_taught_is_told_and_not_stored() {
    let rules = initialized(None);
    let taught = |certified: u64| {
        let block = proposal(Some("alice"), 5, 8, certified);
        let step = rules.guarded_sign_proposal(&block).ok().unwrap();
        let step = step.safety_data(Ok(safety_data(5, 7, 3, 4))).ok().unwrap();
        let step = step.quorum_cert_checked(Ok(())).ok().unwrap();
        let updates = step.updates();
        assert_eq!(step.observed().last_voted_round, 7);
        (step.observed().preferred_round, step.observed().one_chain_round, updates)
    };
    assert_eq!(taught(3), (3, 4, vec![]));
    assert_eq!(
        taught(6),
        (5, 6, vec![RoundUpdate::OneChainRound(6), RoundUpdate::PreferredRound(5)])
    );
}

#[test]
fn the_signer_may_fail() {
    let block = proposal(Some("alice"), 5, 8, 3);
    let failure = Error::SecureStorageUnexpectedError("sealed".to_string());
    let answer = sign(&block, Ok(safety_data(5, 7, 3, 4)), Ok(()), Err(failure.clone()));
    assert_eq!(answer, Err(failure));
}

#[test]
fn a_proposal_needs_an_author() {
    let block = proposal(None, 5, 8, 3);
    let answer = sign(&block, Ok(safety_data(5, 7, 3, 4)), Ok(()), Ok(signature()));
    assert_eq!(
        answer,
        Err(Error::InvalidProposal("No author found in the proposal".to_string()))
    );
}

#[test]
fn a_proposal_is_signed_by_its_author() {
    let block = proposal(Some("bob"), 5, 8, 3);
    let answer = sign(&block, Ok(safety_data(5, 7, 3, 4)), Ok(()), Ok(signature()));
    assert_eq!(
        answer,
        Err(Error::InvalidProposal("Proposal author is not validator signer!".to_string()))
    );
}

#[test]
fn a_proposal_needs_the_stored_safety_data() {
    let block = proposal(Some("alice"), 5, 8, 3);
    let failure = Error::SecureStorageMissingDataError("safety_data".to_string());
    let answer = sign(&block, Err(failure.clone()), Ok(()), Ok(signature()));
    assert_eq!(answer, Err(failure));
}

#[test]
fn a_proposal_of_another_epoch_is_refused() {
    let block = proposal(Some("alice"), 4, 8, 3);
    let answer = sign(&block, Ok(safety_data(5, 7, 3, 4)), Ok(()), Ok(signature()));
    assert_eq!(answer, Err(Error::IncorrectEpoch(4, 5)));
}

#[test]
fn a_proposal_in_a_voted_round_is_refused() {
    let block = proposal(Some("alice"), 5, 1234567890, 3);
    let answer = sign(&block, Ok(safety_data(5, u64::MAX, 3, 4)), Ok(()), Ok(signature()));
    assert_eq!(
        answer,
        Err(Error::InvalidProposal(
            "Proposed round 1234567890 is not higher than last voted round 18446744073709551615"
                .to_string()
        ))
    );
    let block = proposal(Some("alice"), 5, 0, 3);
    let answer = sign(&block, Ok(safety_data(5, 0, 3, 4)), Ok(()), Ok(signature()));
    assert_eq!(
        answer,
        Err(Error::InvalidProposal(
            "Proposed round 0 is not higher than last voted round 0".to_string()
        ))
    );
}

#[test]
fn a_vote_closes_its_round_to_proposals() {
    let mut data = safety_data(5, 7, 3, 4);
    initialized(None).verify_and_update_last_vote_round(8, &mut data).unwrap();
    let block = proposal(Some("alice"), 5, 8, 3);
    assert_eq!(
        sign(&block, Ok(data), Ok(()), Ok(signature())),
        Err(Error::InvalidProposal(
            "Proposed round 8 is not higher than last voted round 8".to_string()
        ))
    );
}

#[test]
fn a_proposal_needs_a_valid_certificate() {
    let block = proposal(Some("alice"), 5, 8, 3);
    let answer = sign(
        &block,
        Ok(safety_data(5, 7, 3, 4)),
        Err("too few signatures".to_string()),
        Ok(signature()),
    );
    assert_eq!(answer, Err(Error::InvalidQuorumCertificate("too few signatures".to_string())));
}

#[test]
fn a_proposal_needs_a_recent_certificate() {
    let block = proposal(Some("alice"), 5, 8, 2);
    let answer = sign(&block, Ok(safety_data(5, 7, 3, 4)), Ok(()), Ok(signature()));
    assert_eq!(answer, Err(Error::IncorrectPreferredRound(2, 3)));
}

#[test]
fn without_a_signer_no_proposal_is_signed() {
    let rules = SafetyRules::new(None, false, false);
    let block = proposal(Some("alice"), 5, 8, 3);
    assert_eq!(
        rules.guarded_sign_proposal(&block).err(),
        Some(Error::NotInitialized("validator_signer".to_string()))
    );
}
