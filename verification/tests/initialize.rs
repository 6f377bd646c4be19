use safety_rules::error::Error;
use safety_rules::initialize::{EpochStep, KeyStep, WaypointStep};
use safety_rules::safety_rules::SafetyRules;
use safety_rules::signer::{ConfigurableValidatorSigner, ConsensusKey};
use safety_rules::types::{
    Author, BlockInfo, EpochState, LedgerInfo, PublicKey, QuorumCert, SafetyData, Signature,
    ValidatorInfo, ValidatorVerifier, Waypoint,
};

fn author(name: &str) -> Author {
    Author { address: name.to_string() }
}

fn key(byte: u8) -> PublicKey {
    PublicKey { bytes: [byte; 32] }
}

fn block_info(round: u64) -> BlockInfo {
    BlockInfo { round, ordered_only: false, text: format!("block {}", round) }
}

fn epoch_state(epoch: u64, validators: Vec<(&str, u8)>) -> EpochState {
    let mut infos = Vec::new();
    for (name, byte) in validators {
        infos.push(ValidatorInfo {
            author: author(name),
            public_key: key(byte),
            voting_power: byte as u64,
        });
    }
    EpochState { epoch, verifier: ValidatorVerifier { validators: infos, quorum_voting_power: 3 } }
}

fn epoch_end(next_epoch_state: Option<EpochState>) -> LedgerInfo {
    LedgerInfo {
        commit_info: block_info(0),
        next_epoch_state,
        text: "end of epoch".to_string(),
    }
}

fn waypoint(version: u64) -> Waypoint {
    Waypoint { version, value: [version as u8; 32] }
}

fn safety_data(epoch: u64, last_voted: u64, preferred: u64, one_chain: u64) -> SafetyData {
    SafetyData::new(epoch, last_voted, preferred, one_chain, None)
}

struct Replies {
    waypoint: Result<Waypoint, Error>,
    ledger_info: Result<LedgerInfo, String>,
    boundary: Result<Waypoint, String>,
    waypoint_stored: Result<(), Error>,
    read: Result<SafetyData, Error>,
    safety_data_stored: Result<(), Error>,
    author: Result<Author, Error>,
    exported: Result<ConsensusKey, Error>,
    tested: Result<Signature, String>,
}

/// What storage was asked to take.
#[derive(Debug, PartialEq)]
struct Stored {
    waypoint: Option<Waypoint>,
    safety_data: Option<SafetyData>,
}

const NOTHING: Stored = Stored { waypoint: None, safety_data: None };

fn consensus_key(byte: u8) -> ConsensusKey {
    ConsensusKey { public_key: key(byte), private_key: [byte; 32] }
}

fn failure() -> Error {
    Error::SecureStorageUnexpectedError("offline".to_string())
}

/// A proof that leads from epoch 4 to epoch 5, in which alice holds key 1.
fn favourable() -> Replies {
    Replies {
        waypoint: Ok(waypoint(10)),
        ledger_info: Ok(epoch_end(Some(epoch_state(5, vec![("alice", 1), ("bob", 2)])))),
        boundary: Ok(waypoint(11)),
        waypoint_stored: Ok(()),
        read: Ok(safety_data(4, 7, 3, 4)),
        safety_data_stored: Ok(()),
        author: Ok(author("alice")),
        exported: Ok(consensus_key(1)),
        tested: Ok(Signature { bytes: [0; 64] }),
    }
}

fn run(rules: &mut SafetyRules, replies: Replies, stored: &mut Stored) -> Result<(), Error> {
    let known = replies.waypoint.clone();
    let step = rules.guarded_initialize(replies.waypoint)?;
    assert_eq!(Ok(step.waypoint()), known);
    let step = match &replies.ledger_info {
        Ok(ledger_info) => step.proof_checked(Ok(ledger_info))?,
        Err(text) => step.proof_checked(Err(text.clone()))?,
    };
    assert_eq!(Ok(step.ledger_info().clone()), replies.ledger_info);
    let step = match step.boundary(replies.boundary)? {
        WaypointStep::Store(step) => {
            stored.waypoint = Some(step.new_waypoint());
            step.stored(replies.waypoint_stored)?
        }
        WaypointStep::Keep(step) => step,
    };
    let step = match step.safety_data(replies.read)? {
        EpochStep::Store(step) => {
            stored.safety_data = Some(step.safety_data().clone());
            step.stored(replies.safety_data_stored)?
        }
        EpochStep::Keep(step) => step,
    };
    match rules.initialize_author(step, replies.author)? {
        KeyStep::InSet => Ok(()),
        KeyStep::Export(step) => {
            assert_eq!(step.public_key(), key(1));
            assert!(rules.signer().is_err());
            rules.initialize_exported(step, replies.exported)
        }
        KeyStep::Test(step) => {
            assert_eq!(step.request().signer().public_key(), key(1));
            assert!(rules.signer().is_err());
            assert_eq!(Ok(step.request().message().clone()), replies.ledger_info);
            rules.initialize_tested(step, replies.tested)
        }
    }
}

fn initialize(rules: &mut SafetyRules, replies: Replies) -> (Result<(), Error>, Stored) {
    let mut stored = Stored { waypoint: None, safety_data: None };
    let answer = run(rules, replies, &mut stored);
    (answer, stored)
}

fn handles() -> SafetyRules {
    SafetyRules::new(None, false, false)
}

fn exports() -> SafetyRules {
    SafetyRules::new(None, false, true)
}

fn in_validator_set(rules: &SafetyRules) -> bool {
    let step = rules.guarded_consensus_state(Ok(waypoint(11))).ok().unwrap();
    let step = step.safety_data(Ok(safety_data(5, 0, 0, 0))).ok().unwrap();
    let step = step.author(Ok(author("alice"))).ok().unwrap();
    let step = step.safety_data(Ok(safety_data(5, 0, 0, 0))).ok().unwrap();
    step.waypoint(Ok(waypoint(11))).unwrap().in_validator_set
}

#[test]
fn a_later_epoch_starts_afresh() {
    let mut rules = handles();
    let (answer, stored) = initialize(&mut rules, favourable());
    assert_eq!(answer, Ok(()));
    assert_eq!(
        stored,
        Stored { waypoint: Some(waypoint(11)), safety_data: Some(safety_data(5, 0, 0, 0)) }
    );
    assert_eq!(
        rules.epoch_state().ok(),
        Some(&epoch_state(5, vec![("alice", 1), ("bob", 2)]))
    );
    let expected =
        ConfigurableValidatorSigner::Handle { author: author("alice"), key_version: key(1) };
    assert!(rules.signer().ok() == Some(&expected));
    assert!(in_validator_set(&rules));
}

#[test]
fn a_key_may_be_exported() {
    let mut rules = exports();
    let (answer, _) = initialize(&mut rules, favourable());
    assert_eq!(answer, Ok(()));
    let expected = ConfigurableValidatorSigner::Signer {
        author: author("alice"),
        consensus_key: consensus_key(1),
    };
    assert!(rules.signer().ok() == Some(&expected));
}

#[test]
fn the_same_epoch_goes_on() {
    let mut rules = handles();
    let replies = Replies {
        boundary: Ok(waypoint(10)),
        read: Ok(safety_data(5, 7, 3, 4)),
        waypoint_stored: Err(failure()),
        safety_data_stored: Err(failure()),
        ..favourable()
    };
    assert_eq!(initialize(&mut rules, replies), (Ok(()), NOTHING));
}

#[test]
fn initializing_twice_stores_nothing() {
    let mut rules = exports();
    assert_eq!(initialize(&mut rules, favourable()).0, Ok(()));
    let again = Replies {
        waypoint: Ok(waypoint(11)),
        read: Ok(safety_data(5, 0, 0, 0)),
        exported: Err(failure()),
        tested: Err("not asked for".to_string()),
        ..favourable()
    };
    assert_eq!(initialize(&mut rules, again), (Ok(()), NOTHING));
    assert_eq!(rules.signer().ok().map(|signer| signer.public_key()), Some(key(1)));
}

#[test]
fn an_unread_waypoint_is_refused() {
    let mut rules = handles();
    let replies = Replies { waypoint: Err(failure()), ..favourable() };
    assert_eq!(initialize(&mut rules, replies), (Err(failure()), NOTHING));
    assert!(rules.epoch_state().is_err());
}

#[test]
fn an_invalid_proof_is_refused() {
    let mut rules = handles();
    let replies = Replies { ledger_info: Err("stale".to_string()), ..favourable() };
    assert_eq!(
        initialize(&mut rules, replies),
        (Err(Error::InvalidEpochChangeProof("stale".to_string())), NOTHING)
    );
}

#[test]
fn a_proof_ends_an_epoch() {
    let mut rules = handles();
    let replies = Replies {
        ledger_info: Ok(epoch_end(None)),
        boundary: Err("no epoch".to_string()),
        ..favourable()
    };
    assert_eq!(initialize(&mut rules, replies), (Err(Error::InvalidLedgerInfo), NOTHING));
}

#[test]
fn a_boundary_without_waypoint_is_refused() {
    let mut rules = handles();
    let replies = Replies { boundary: Err("no epoch".to_string()), ..favourable() };
    assert_eq!(
        initialize(&mut rules, replies),
        (Err(Error::InternalError("no epoch".to_string())), NOTHING)
    );
}

#[test]
fn an_unstored_waypoint_is_refused() {
    let mut rules = handles();
    let replies = Replies { waypoint_stored: Err(failure()), ..favourable() };
    assert_eq!(
        initialize(&mut rules, replies),
        (Err(failure()), Stored { waypoint: Some(waypoint(11)), safety_data: None })
    );
    assert!(rules.epoch_state().is_err());
}

#[test]
fn unread_safety_data_is_refused() {
    let mut rules = handles();
    let replies = Replies { read: Err(failure()), ..favourable() };
    assert_eq!(initialize(&mut rules, replies).0, Err(failure()));
    assert!(rules.epoch_state().is_err());
}

#[test]
fn an_earlier_epoch_is_refused() {
    let mut rules = handles();
    let replies = Replies { read: Ok(safety_data(6, 7, 3, 4)), ..favourable() };
    assert_eq!(
        initialize(&mut rules, replies),
        (
            Err(Error::WaypointOutOfDate(10, 11, 6, 5)),
            Stored { waypoint: Some(waypoint(11)), safety_data: None }
        )
    );
    assert!(rules.epoch_state().is_err());
}

#[test]
fn an_unstored_start_is_refused() {
    let mut rules = handles();
    let replies = Replies { safety_data_stored: Err(failure()), ..favourable() };
    assert_eq!(initialize(&mut rules, replies).0, Err(failure()));
    assert!(rules.epoch_state().is_err());
}

#[test]
fn an_unknown_author_keeps_the_signer() {
    let mut rules = handles();
    assert_eq!(initialize(&mut rules, favourable()).0, Ok(()));
    let replies = Replies {
        ledger_info: Ok(epoch_end(Some(epoch_state(6, vec![("alice", 4)])))),
        author: Err(failure()),
        ..favourable()
    };
    assert_eq!(initialize(&mut rules, replies).0, Err(failure()));
    assert_eq!(rules.epoch_state().ok(), Some(&epoch_state(6, vec![("alice", 4)])));
    assert_eq!(rules.signer().ok().map(|signer| signer.public_key()), Some(key(1)));
}

#[test]
fn a_validator_that_left_loses_its_signer() {
    let mut rules = handles();
    assert_eq!(initialize(&mut rules, favourable()).0, Ok(()));
    let replies = Replies {
        ledger_info: Ok(epoch_end(Some(epoch_state(6, vec![("bob", 2)])))),
        ..favourable()
    };
    assert_eq!(
        initialize(&mut rules, replies).0,
        Err(Error::ValidatorNotInSet("alice".to_string()))
    );
    assert!(!in_validator_set(&rules));
    assert_eq!(rules.epoch_state().ok(), Some(&epoch_state(6, vec![("bob", 2)])));
}

#[test]
fn a_missing_key_is_told_apart() {
    let mut rules = exports();
    let missing = Error::SecureStorageMissingDataError("consensus".to_string());
    let replies = Replies { exported: Err(missing), ..favourable() };
    assert_eq!(
        initialize(&mut rules, replies).0,
        Err(Error::ValidatorKeyNotFound("consensus".to_string()))
    );
    assert!(!in_validator_set(&rules));
}

#[test]
fn a_failed_export_is_passed_on() {
    let mut rules = exports();
    let replies = Replies { exported: Err(failure()), ..favourable() };
    assert_eq!(initialize(&mut rules, replies).0, Err(failure()));
    assert!(!in_validator_set(&rules));
}

#[test]
fn a_key_that_does_not_sign_is_not_held() {
    let mut rules = handles();
    let replies = Replies { tested: Err("no such key".to_string()), ..favourable() };
    assert_eq!(
        initialize(&mut rules, replies).0,
        Err(Error::ValidatorKeyNotFound("no such key".to_string()))
    );
    assert!(!in_validator_set(&rules));
}

#[test]
fn a_changed_key_is_exported_anew() {
    let mut rules = exports();
    let replies = Replies { exported: Ok(consensus_key(8)), ..favourable() };
    assert_eq!(initialize(&mut rules, replies).0, Ok(()));
    assert_eq!(rules.signer().ok().map(|signer| signer.public_key()), Some(key(8)));
    assert_eq!(initialize(&mut rules, favourable()).0, Ok(()));
    assert_eq!(rules.signer().ok().map(|signer| signer.public_key()), Some(key(1)));
}

#[test]
fn votes_in_between_survive_initializing_again() {
    let mut rules = handles();
    assert_eq!(initialize(&mut rules, favourable()).0, Ok(()));
    let again = Replies {
        waypoint: Ok(waypoint(20)),
        read: Ok(safety_data(5, 12, 10, 11)),
        tested: Err("not asked for".to_string()),
        ..favourable()
    };
    assert_eq!(initialize(&mut rules, again), (Ok(()), NOTHING));
    assert_eq!(rules.signer().ok().map(|signer| signer.public_key()), Some(key(1)));
}

#[test]
fn no_history_brings_a_voted_round_back() {
    let mut rules = handles();
    let mut data = safety_data(4, 0, 0, 0);
    let mut granted = Vec::new();
    let certificate = QuorumCert { certified_block: block_info(9), parent_block: block_info(8) };
    for round in vec![5u64, 5, 3, 7] {
        if rules.verify_and_update_last_vote_round(round, &mut data).is_ok() {
            granted.push((data.epoch, round));
        }
        rules.observe_qc(&certificate, &mut data);
        let ledger_info = Ok(epoch_end(Some(epoch_state(4, vec![("alice", 1)]))));
        let replies = Replies { ledger_info, read: Ok(data.clone()), ..favourable() };
        let (answer, stored) = initialize(&mut rules, replies);
        assert_eq!((answer, stored.safety_data), (Ok(()), None));
    }
    let (answer, stored) =
        initialize(&mut rules, Replies { read: Ok(data.clone()), ..favourable() });
    assert_eq!(answer, Ok(()));
    data = stored.safety_data.unwrap();
    for round in vec![5u64, 5, 6] {
        if rules.verify_and_update_last_vote_round(round, &mut data).is_ok() {
            granted.push((data.epoch, round));
        }
    }
    assert_eq!(granted, vec![(4, 5), (4, 7), (5, 5), (5, 6)]);
}

#[test]
fn a_signer_is_held_only_in_an_epoch() {
    let mut rules = handles();
    assert!(rules.signer().is_err() && rules.epoch_state().is_err());
    let refused = Replies { tested: Err("no such key".to_string()), ..favourable() };
    assert!(initialize(&mut rules, refused).0.is_err());
    assert!(rules.signer().is_err() && rules.epoch_state().is_ok());
    assert_eq!(initialize(&mut rules, favourable()).0, Ok(()));
    assert!(rules.signer().is_ok() && rules.epoch_state().is_ok());
    let early = Replies { read: Ok(safety_data(6, 0, 0, 0)), ..favourable() };
    assert!(initialize(&mut rules, early).0.is_err());
    assert!(rules.signer().is_ok() && rules.epoch_state().is_ok());
}
