use safety_rules::error::Error;
use safety_rules::rounds::{RememberedRounds, RoundUpdate};
use safety_rules::safety_rules::{next_round, SafetyRules};
use safety_rules::types::{
    Author, BlockInfo, PublicKey, QuorumCert, SafetyData, ValidatorInfo, ValidatorVerifier, Vote,
};

fn author(name: &str) -> Author {
    Author { address: name.to_string() }
}

fn key(byte: u8) -> PublicKey {
    PublicKey { bytes: [byte; 32] }
}

fn validator(name: &str, byte: u8) -> ValidatorInfo {
    ValidatorInfo {
        author: author(name),
        public_key: key(byte),
        voting_power: 100 * byte as u64,
    }
}

fn certificate(certified: u64, parent: u64) -> QuorumCert {
    QuorumCert {
        certified_block: BlockInfo { round: certified, ordered_only: false, text: String::new() },
        parent_block: BlockInfo { round: parent, ordered_only: false, text: String::new() },
    }
}

fn rules() -> SafetyRules {
    SafetyRules::new(None, false, false)
}

fn remembered() -> SafetyData {
    SafetyData::new(5, 7, 3, 4, Some(Vote { encoded: vec![1, 2, 3] }))
}

#[test]
fn next_round_adds_one() {
    assert_eq!(next_round(0), Ok(1));
    assert_eq!(next_round(u64::MAX - 1), Ok(u64::MAX));
}

#[test]
fn no_round_follows_the_last() {
    assert_eq!(next_round(u64::MAX), Err(Error::IncorrectRound(u64::MAX)));
}

#[test]
fn new_rules_are_not_initialized() {
    assert_eq!(
        rules().signer().err(),
        Some(Error::NotInitialized("validator_signer".to_string()))
    );
    assert_eq!(
        rules().epoch_state().err(),
        Some(Error::NotInitialized("epoch_state".to_string()))
    );
    assert_eq!(
        rules().sign(&7u8).err(),
        Some(Error::NotInitialized("validator_signer".to_string()))
    );
    assert_eq!(
        rules().verify_author(&Some(author("alice"))),
        Err(Error::NotInitialized("validator_signer".to_string()))
    );
    assert_eq!(
        rules().verify_qc(Ok(())),
        Err(Error::NotInitialized("epoch_state".to_string()))
    );
}

#[test]
fn a_certificate_raises_what_is_remembered() {
    let mut data = remembered();
    assert!(rules().observe_qc(&certificate(9, 8), &mut data));
    assert_eq!(data.one_chain_round, 9);
    assert_eq!(data.preferred_round, 8);
    assert_eq!(data.last_voted_round, 7);
    assert_eq!(data.last_vote, remembered().last_vote);
    assert!(!rules().observe_qc(&certificate(9, 8), &mut data));
    assert!(rules().observe_qc(&certificate(10, 2), &mut data));
    assert_eq!((data.one_chain_round, data.preferred_round), (10, 8));
    assert!(rules().observe_qc(&certificate(1, 9), &mut data));
    assert_eq!((data.one_chain_round, data.preferred_round), (10, 9));
}

#[test]
fn only_what_a_certificate_raises_is_an_update() {
    let updates = |certified, parent| {
        let mut data = remembered();
        let before = RememberedRounds::of(&data);
        rules().observe_qc(&certificate(certified, parent), &mut data);
        before.updates(&data)
    };
    assert_eq!(
        updates(9, 8),
        vec![RoundUpdate::OneChainRound(9), RoundUpdate::PreferredRound(8)]
    );
    assert_eq!(updates(9, 3), vec![RoundUpdate::OneChainRound(9)]);
    assert_eq!(updates(4, 8), vec![RoundUpdate::PreferredRound(8)]);
    assert_eq!(updates(4, 3), vec![]);
}

#[test]
fn a_granted_vote_is_an_update() {
    let mut data = remembered();
    let before = RememberedRounds::of(&data);
    rules().verify_and_update_last_vote_round(8, &mut data).unwrap();
    assert_eq!(before.updates(&data), vec![RoundUpdate::LastVotedRound(8)]);
    let before = RememberedRounds::of(&data);
    rules().verify_and_update_last_vote_round(8, &mut data).unwrap_err();
    assert_eq!(before.updates(&data), vec![]);
}

#[test]
fn certificates_are_seen_in_any_order() {
    let mut a = remembered();
    rules().observe_qc(&certificate(9, 2), &mut a);
    rules().observe_qc(&certificate(6, 5), &mut a);
    let mut b = remembered();
    rules().observe_qc(&certificate(6, 5), &mut b);
    rules().observe_qc(&certificate(9, 2), &mut b);
    assert_eq!(a, b);
    assert_eq!((a.one_chain_round, a.preferred_round), (9, 5));
}

#[test]
fn second_voting_rule() {
    let mut data = remembered();
    assert_eq!(
        rules().verify_and_update_preferred_round(&certificate(2, 1), &mut data),
        Err(Error::IncorrectPreferredRound(2, 3))
    );
    assert_eq!(data, remembered());
    assert_eq!(
        rules().verify_and_update_preferred_round(&certificate(3, 2), &mut data),
        Ok(false)
    );
    assert_eq!(data, remembered());
    assert_eq!(
        rules().verify_and_update_preferred_round(&certificate(6, 5), &mut data),
        Ok(true)
    );
    assert_eq!((data.one_chain_round, data.preferred_round), (6, 5));
    assert_eq!(
        rules().verify_and_update_preferred_round(&certificate(4, 3), &mut data),
        Err(Error::IncorrectPreferredRound(4, 5))
    );
}

#[test]
fn first_voting_rule() {
    let mut data = remembered();
    assert_eq!(
        rules().verify_and_update_last_vote_round(7, &mut data),
        Err(Error::IncorrectLastVotedRound(7, 7))
    );
    assert_eq!(data, remembered());
    assert_eq!(rules().verify_and_update_last_vote_round(8, &mut data), Ok(()));
    assert_eq!(data, SafetyData { last_voted_round: 8, ..remembered() });
}

#[test]
fn votes_rise_whatever_is_asked_for() {
    let mut data = SafetyData::new(1, 0, 0, 0, None);
    let mut granted = Vec::new();
    for round in vec![3, 1, 3, 4, 4, 2, 9, 5, 10] {
        if rules().verify_and_update_last_vote_round(round, &mut data).is_ok() {
            granted.push(round);
        }
    }
    assert_eq!(granted, vec![3, 4, 9, 10]);
}

#[test]
fn epochs_must_match() {
    assert_eq!(rules().verify_epoch(5, &remembered()), Ok(()));
    assert_eq!(rules().verify_epoch(4, &remembered()), Err(Error::IncorrectEpoch(4, 5)));
    assert_eq!(rules().verify_epoch(6, &remembered()), Err(Error::IncorrectEpoch(6, 5)));
}

#[test]
fn keys_are_looked_up_by_author() {
    let listed = ValidatorVerifier {
        validators: vec![validator("alice", 1), validator("bob", 2), validator("alice", 3)],
        quorum_voting_power: 5,
    };
    assert_eq!(listed.get_public_key(&author("bob")), Some(key(2)));
    assert_eq!(listed.get_public_key(&author("alice")), Some(key(3)));
    assert_eq!(listed.get_public_key(&author("carol")), None);
    let nobody = ValidatorVerifier { validators: vec![], quorum_voting_power: 0 };
    assert_eq!(nobody.get_public_key(&author("bob")), None);
}

#[test]
fn a_copy_of_the_validators_keeps_their_weights() {
    let listed = ValidatorVerifier {
        validators: vec![validator("alice", 1), validator("bob", 2)],
        quorum_voting_power: u128::MAX,
    };
    let copy = listed.clone();
    assert_eq!(copy, listed);
    assert_eq!(copy.validators[1].voting_power, 200);
    assert_eq!(copy.quorum_voting_power, u128::MAX);
}

#[test]
fn keys_differ_in_any_byte() {
    let mut other = key(1);
    other.bytes[31] = 2;
    assert!(key(1) == key(1));
    assert!(key(1) != other);
}
