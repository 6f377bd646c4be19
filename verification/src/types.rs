//! The values that the rules read: keys, waypoints, blocks, certificates and
//! the safety data that a validator remembers between votes.

use vstd::prelude::*;

verus! {

broadcast use vstd::array::group_array_axioms;

/// A round of consensus.
pub type Round = u64;

/// A validator's account address, in its printed form.
#[derive(Debug, PartialEq, Eq)]
pub struct Author {
    pub address: String,
}

impl Author {
    /// Whether both name the same account.
    pub fn same(&self, other: &Author) -> (r: bool)
        ensures
            r == (self.address@ == other.address@),
    {
        self.address == other.address
    }
}

impl Clone for Author {
    fn clone(&self) -> (r: Self)
        ensures
            r == *self,
    {
        Author { address: self.address.clone() }
    }
}

/// An Ed25519 public key.
#[derive(Debug, Clone, Copy, Eq)]
pub struct PublicKey {
    pub bytes: [u8; 32],
}

impl PartialEq for PublicKey {
    fn eq(&self, other: &PublicKey) -> (r: bool) {
        let mut i: usize = 0;
        while i < 32
            invariant
                i <= 32,
                forall|j: int| 0 <= j < i ==> self.bytes[j] == other.bytes[j],
            decreases 32 - i,
        {
            if self.bytes[i] != other.bytes[i] {
                return false;
            }
            i += 1;
        }
        assert(self.bytes =~= other.bytes);
        true
    }
}

impl vstd::std_specs::cmp::PartialEqSpecImpl for PublicKey {
    open spec fn obeys_eq_spec() -> bool {
        true
    }

    open spec fn eq_spec(&self, other: &PublicKey) -> bool {
        *self == *other
    }
}

/// An Ed25519 signature.
#[derive(Debug, Clone, Copy, PartialEq, Eq)]
pub struct Signature {
    pub bytes: [u8; 64],
}

/// A trusted point of the ledger: a version, and the hash of what the ledger
/// said there.
#[derive(Debug, Clone, Copy, PartialEq, Eq)]
pub struct Waypoint {
    pub version: u64,
    pub value: [u8; 32],
}

/// What a ledger info or a certificate says of a block: its round, whether the
/// block is ordered but not yet executed, and how the block info prints.
#[derive(Debug, Clone, PartialEq, Eq)]
pub struct BlockInfo {
    pub round: Round,
    pub ordered_only: bool,
    pub text: String,
}

/// A quorum certificate: the block that it certifies, and that block's parent.
#[derive(Debug, Clone, PartialEq, Eq)]
pub struct QuorumCert {
    pub certified_block: BlockInfo,
    pub parent_block: BlockInfo,
}

/// A proposed block, without its author's signature.
#[derive(Debug, Clone, PartialEq, Eq)]
pub struct BlockData {
    pub author: Option<Author>,
    pub epoch: u64,
    pub round: Round,
    pub quorum_cert: QuorumCert,
}

/// A block that a vote is asked for.
#[derive(Debug, Clone, PartialEq, Eq)]
pub struct VoteProposal {
    pub block: BlockData,
}

/// A vote proposal, with the signature of the execution that produced it where
/// there is one.
#[derive(Debug, Clone, PartialEq, Eq)]
pub struct MaybeSignedVoteProposal {
    pub vote_proposal: VoteProposal,
    pub signature: Option<Signature>,
}

/// What a vote is about, in its encoded form.
#[derive(Debug, Clone, PartialEq, Eq)]
pub struct VoteData {
    pub encoded: Vec<u8>,
}

/// A signed vote, in its encoded form.
#[derive(Debug, Clone, PartialEq, Eq)]
pub struct Vote {
    pub encoded: Vec<u8>,
}

/// A validator of an epoch, the consensus key that it holds there, and how much
/// its signature weighs.
#[derive(Debug, PartialEq, Eq)]
pub struct ValidatorInfo {
    pub author: Author,
    pub public_key: PublicKey,
    pub voting_power: u64,
}

impl Clone for ValidatorInfo {
    fn clone(&self) -> (r: Self)
        ensures
            r == *self,
    {
        ValidatorInfo {
            author: self.author.clone(),
            public_key: self.public_key,
            voting_power: self.voting_power,
        }
    }
}

/// The key of the validator at `address`. Where an address is listed twice, the
/// later entry counts.
pub open spec fn public_key_of(validators: Seq<ValidatorInfo>, address: Seq<char>) -> Option<
    PublicKey,
>
    decreases validators.len(),
{
    if validators.len() == 0 {
        None
    } else if validators.last().author.address@ == address {
        Some(validators.last().public_key)
    } else {
        public_key_of(validators.drop_last(), address)
    }
}

/// The validators of an epoch, and the voting power that makes a quorum.
#[derive(Debug, PartialEq, Eq)]
pub struct ValidatorVerifier {
    pub validators: Vec<ValidatorInfo>,
    pub quorum_voting_power: u128,
}

/// What the validators of an epoch are.
pub struct ValidatorVerifierView {
    pub validators: Seq<ValidatorInfo>,
    pub quorum_voting_power: u128,
}

impl View for ValidatorVerifier {
    type V = ValidatorVerifierView;

    open spec fn view(&self) -> ValidatorVerifierView {
        ValidatorVerifierView {
            validators: self.validators@,
            quorum_voting_power: self.quorum_voting_power,
        }
    }
}

impl ValidatorVerifier {
    /// The consensus key of `author`, if `author` is a validator.
    pub fn get_public_key(&self, author: &Author) -> (r: Option<PublicKey>)
        ensures
            r == public_key_of(self@.validators, author.address@),
    {
        let mut i: usize = self.validators.len();
        assert(self.validators@.take(i as int) =~= self.validators@);
        while i > 0
            invariant
                i <= self.validators@.len(),
                public_key_of(self@.validators, author.address@) == public_key_of(
                    self.validators@.take(i as int),
                    author.address@,
                ),
            decreases i,
        {
            i -= 1;
            assert(self.validators@.take(i + 1).drop_last() =~= self.validators@.take(i as int));
            if self.validators[i].author.same(author) {
                return Some(self.validators[i].public_key);
            }
        }
        None
    }
}

impl Clone for ValidatorVerifier {
    fn clone(&self) -> (r: Self)
        ensures
            r@ == self@,
    {
        let mut validators: Vec<ValidatorInfo> = Vec::new();
        let mut i: usize = 0;
        while i < self.validators.len()
            invariant
                i <= self.validators@.len(),
                validators@ == self.validators@.take(i as int),
            decreases self.validators@.len() - i,
        {
            validators.push(self.validators[i].clone());
            assert(self.validators@.take(i + 1) =~= self.validators@.take(i as int).push(
                self.validators@[i as int],
            ));
            i += 1;
        }
        assert(self.validators@.take(i as int) =~= self.validators@);
        ValidatorVerifier { validators, quorum_voting_power: self.quorum_voting_power }
    }
}

/// An epoch and its validators.
#[derive(Debug, PartialEq, Eq)]
pub struct EpochState {
    pub epoch: u64,
    pub verifier: ValidatorVerifier,
}

/// What an epoch state stands for.
pub struct EpochStateView {
    pub epoch: u64,
    pub verifier: ValidatorVerifierView,
}

impl View for EpochState {
    type V = EpochStateView;

    open spec fn view(&self) -> EpochStateView {
        EpochStateView { epoch: self.epoch, verifier: self.verifier@ }
    }
}

impl Clone for EpochState {
    fn clone(&self) -> (r: Self)
        ensures
            r@ == self@,
    {
        EpochState { epoch: self.epoch, verifier: self.verifier.clone() }
    }
}

/// A state of the ledger: the block that it commits, the epoch that starts after
/// it if it ends one, and how the ledger info prints.
#[derive(Debug, Clone, PartialEq, Eq)]
pub struct LedgerInfo {
    pub commit_info: BlockInfo,
    pub next_epoch_state: Option<EpochState>,
    pub text: String,
}

/// What a validator remembers so as never to sign two things that conflict.
#[derive(Debug, Clone, PartialEq, Eq)]
pub struct SafetyData {
    pub epoch: u64,
    pub last_voted_round: Round,
    /// The highest round of a block that is the parent of a certified one.
    pub preferred_round: Round,
    /// The highest round of a certified block.
    pub one_chain_round: Round,
    pub last_vote: Option<Vote>,
}

impl SafetyData {
    pub fn new(
        epoch: u64,
        last_voted_round: Round,
        preferred_round: Round,
        one_chain_round: Round,
        last_vote: Option<Vote>,
    ) -> (r: Self)
        ensures
            r == (SafetyData {
                epoch,
                last_voted_round,
                preferred_round,
                one_chain_round,
                last_vote,
            }),
    {
        SafetyData { epoch, last_voted_round, preferred_round, one_chain_round, last_vote }
    }
}

/// What a validator reports of itself.
#[derive(Debug, Clone, PartialEq, Eq)]
pub struct ConsensusState {
    pub safety_data: SafetyData,
    pub waypoint: Waypoint,
    pub in_validator_set: bool,
}

impl ConsensusState {
    pub fn new(safety_data: SafetyData, waypoint: Waypoint, in_validator_set: bool) -> (r: Self)
        ensures
            r == (ConsensusState { safety_data, waypoint, in_validator_set }),
    {
        ConsensusState { safety_data, waypoint, in_validator_set }
    }
}

} // verus!
