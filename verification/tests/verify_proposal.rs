use safety_rules::error::Error;
use safety_rules::initialize::{EpochStep, KeyStep, WaypointStep};
use safety_rules::safety_rules::SafetyRules;
use safety_rules::types::{
    Author, BlockData, BlockInfo, EpochState, LedgerInfo, MaybeSignedVoteProposal, PublicKey,
    QuorumCert, SafetyData, Signature, ValidatorInfo, ValidatorVerifier, VoteData, VoteProposal,
    Waypoint,
};
use safety_rules::verify_proposal::VoteProposalStart;

fn author(name: &str) -> Author {
    Author { address: name.to_string() }
}

fn key(byte: u8) -> PublicKey {
    PublicKey { bytes: [byte; 32] }
}

fn block_info(round: u64) -> BlockInfo {
    BlockInfo { round, ordered_only: false, text: format!("block {}", round) }
}

fn epoch_state(epoch: u64, validators: Vec<(&str, u8)>) -> EpochState {
    let mut infos = Vec::new();
    for (name, byte) in validators {
        infos.push(ValidatorInfo {
            author: author(name),
            public_key: key(byte),
            voting_power: byte as u64,
        });
    }
    EpochState { epoch, verifier: ValidatorVerifier { validators: infos, quorum_voting_power: 3 } }
}

fn epoch_end(next_epoch_state: Option<EpochState>) -> LedgerInfo {
    LedgerInfo {
        commit_info: block_info(0),
        next_epoch_state,
        text: "end of epoch".to_string(),
    }
}

fn waypoint(version: u64) -> Waypoint {
    Waypoint { version, value: [version as u8; 32] }
}

fn safety_data(epoch: u64, last_voted: u64, preferred: u64, one_chain: u64) -> SafetyData {
    SafetyData::new(epoch, last_voted, preferred, one_chain, None)
}

fn initialized(execution_key: Option<PublicKey>) -> SafetyRules {
    let mut rules = SafetyRules::new(execution_key, execution_key.is_some(), false);
    let ledger_info = epoch_end(Some(epoch_state(5, vec![("alice", 1), ("bob", 2)])));
    let step = rules.guarded_initialize(Ok(waypoint(10))).ok().unwrap();
    let step = step.proof_checked(Ok(&ledger_info)).ok().unwrap();
    let step = match step.boundary(Ok(waypoint(10))).ok().unwrap() {
        WaypointStep::Keep(step) => step,
        WaypointStep::Store(_) => panic!("the waypoint is not newer"),
    };
    let step = match step.safety_data(Ok(safety_data(5, 7, 3, 4))).ok().unwrap() {
        EpochStep::Keep(step) => step,
        EpochStep::Store(_) => panic!("the epoch is not later"),
    };
    match rules.initialize_author(step, Ok(author("alice"))).ok().unwrap() {
        KeyStep::Test(step) => {
            rules.initialize_tested(step, Ok(Signature { bytes: [0; 64] })).unwrap();
        }
        _ => panic!("the key stays in storage"),
    }
    rules
}

fn vote_proposal(epoch: u64, signature: Option<Signature>) -> MaybeSignedVoteProposal {
    MaybeSignedVoteProposal {
        vote_proposal: VoteProposal {
            block: BlockData {
                author: Some(author("bob")),
                epoch,
                round: 8,
                quorum_cert: QuorumCert {
                    certified_block: block_info(7),
                    parent_block: block_info(6),
                },
            },
        },
        signature,
    }
}

fn vote_data() -> VoteData {
    VoteData { encoded: vec![4, 2] }
}

struct Replies {
    execution_signature: Result<(), String>,
    read: Result<SafetyData, Error>,
    quorum_cert: Result<(), String>,
    block_signature: Result<(), String>,
    well_formed: Result<(), String>,
    vote_data: Result<VoteData, String>,
}

fn favourable() -> Replies {
    Replies {
        execution_signature: Ok(()),
        read: Ok(safety_data(5, 7, 3, 4)),
        quorum_cert: Ok(()),
        block_signature: Ok(()),
        well_formed: Ok(()),
        vote_data: Ok(vote_data()),
    }
}

fn verify(
    rules: &SafetyRules,
    proposal: &MaybeSignedVoteProposal,
    replies: Replies,
) -> Result<VoteData, Error> {
    let validators = epoch_state(5, vec![("alice", 1), ("bob", 2)]).verifier;
    let step = match rules.verify_proposal(proposal)? {
        VoteProposalStart::ExecutionSignature(step) => {
            assert_eq!(Some(step.signature()), proposal.signature);
            assert_eq!(step.public_key(), key(77));
            assert_eq!(step.vote_proposal(), &proposal.vote_proposal);
            step.signature_checked(replies.execution_signature)?
        }
        VoteProposalStart::SafetyData(step) => step,
    };
    let step = step.safety_data(replies.read)?;
    assert_eq!(step.quorum_cert(), &proposal.vote_proposal.block.quorum_cert);
    assert_eq!(step.validators(), &validators);
    let step = step.quorum_cert_checked(replies.quorum_cert)?;
    assert_eq!(step.block(), &proposal.vote_proposal.block);
    assert_eq!(step.validators(), &validators);
    let step = step.signature_checked(replies.block_signature)?;
    assert_eq!(step.block(), &proposal.vote_proposal.block);
    let step = step.form_checked(replies.well_formed)?;
    assert_eq!(step.vote_proposal(), &proposal.vote_proposal);
    step.generated(replies.vote_data)
}

#[test]
fn a_valid_proposal_may_be_voted_for() {
    let rules = initialized(None);
    assert_eq!(verify(&rules, &vote_proposal(5, None), favourable()), Ok(vote_data()));
}

#[test]
fn a_signed_execution_may_be_voted_for() {
    let rules = initialized(Some(key(77)));
    let signed = vote_proposal(5, Some(Signature { bytes: [3; 64] }));
    assert_eq!(verify(&rules, &signed, favourable()), Ok(vote_data()));
}

#[test]
fn an_execution_must_be_signed_where_that_is_asked_for() {
    let rules = initialized(Some(key(77)));
    assert_eq!(
        verify(&rules, &vote_proposal(5, None), favourable()),
        Err(Error::VoteProposalSignatureNotFound)
    );
}

#[test]
fn the_signature_of_an_execution_must_be_valid() {
    let rules = initialized(Some(key(77)));
    let signed = vote_proposal(5, Some(Signature { bytes: [3; 64] }));
    let replies = Replies { execution_signature: Err("forged".to_string()), ..favourable() };
    assert_eq!(
        verify(&rules, &signed, replies),
        Err(Error::InternalError("forged".to_string()))
    );
}

#[test]
fn the_execution_key_is_dropped_where_nothing_is_verified() {
    let rules = SafetyRules::new(Some(key(77)), false, false);
    let proposal = vote_proposal(5, None);
    assert!(matches!(
        rules.verify_proposal(&proposal),
        Ok(VoteProposalStart::SafetyData(_))
    ));
}

#[test]
fn a_vote_needs_the_stored_safety_data() {
    let rules = initialized(None);
    let failure = Error::SecureStorageUnexpectedError("offline".to_string());
    let replies = Replies { read: Err(failure.clone()), ..favourable() };
    assert_eq!(verify(&rules, &vote_proposal(5, None), replies), Err(failure));
}

#[test]
fn a_vote_proposal_of_another_epoch_is_refused() {
    let rules = initialized(None);
    assert_eq!(
        verify(&rules, &vote_proposal(6, None), favourable()),
        Err(Error::IncorrectEpoch(6, 5))
    );
}

#[test]
fn a_vote_needs_an_epoch_state() {
    let rules = SafetyRules::new(None, false, false);
    assert_eq!(
        verify(&rules, &vote_proposal(5, None), favourable()),
        Err(Error::NotInitialized("epoch_state".to_string()))
    );
}

#[test]
fn a_voted_block_needs_a_valid_certificate() {
    let rules = initialized(None);
    let replies = Replies { quorum_cert: Err("no quorum".to_string()), ..favourable() };
    assert_eq!(
        verify(&rules, &vote_proposal(5, None), replies),
        Err(Error::InvalidQuorumCertificate("no quorum".to_string()))
    );
}

#[test]
fn a_voted_block_is_signed_by_its_author() {
    let rules = initialized(None);
    let replies = Replies { block_signature: Err("unsigned".to_string()), ..favourable() };
    assert_eq!(
        verify(&rules, &vote_proposal(5, None), replies),
        Err(Error::InvalidProposal("unsigned".to_string()))
    );
}

#[test]
fn a_voted_block_is_well_formed() {
    let rules = initialized(None);
    let replies = Replies { well_formed: Err("no parent".to_string()), ..favourable() };
    assert_eq!(
        verify(&rules, &vote_proposal(5, None), replies),
        Err(Error::InvalidProposal("no parent".to_string()))
    );
}

#[test]
fn a_voted_block_extends_its_parent() {
    let rules = initialized(None);
    let replies = Replies { vote_data: Err("fork".to_string()), ..favourable() };
    assert_eq!(
        verify(&rules, &vote_proposal(5, None), replies),
        Err(Error::InvalidAccumulatorExtension("fork".to_string()))
    );
}
