//! Signing the validator's own proposals.
//!
//! The request runs in steps. Each step hands over what is known so far and
//! takes what the outside has to say next: the stored safety data, then whether
//! the certificate verifies, then the signature. Nothing is written to storage:
//! what the proposal's certificate teaches is kept when the validator votes.

use crate::error::{after, told, viewed, Error, ErrorView};
use crate::rounds::{round_updates, rounds_of, RememberedRounds, RoundUpdate};
use crate::safety_rules::{
    author_check, epoch_check, epoch_state_of, preferred, qc_check, signer_of, RulesView,
    SafetyRules,
};
use crate::signer::SigningRequest;
use crate::text::{round_not_higher, round_not_higher_text};
use crate::types::{
    BlockData, QuorumCert, Round, SafetyData, Signature, ValidatorVerifier,
};
use vstd::prelude::*;

verus! {

/// A proposal is of a later round than the last one voted in.
pub open spec fn proposal_round_check(round: Round, safety_data: SafetyData) -> Result<
    (),
    ErrorView,
> {
    if round > safety_data.last_voted_round {
        Ok(())
    } else {
        Err(ErrorView::InvalidProposal(round_not_higher(round, safety_data.last_voted_round)))
    }
}

/// What the stored safety data says of a proposal.
pub open spec fn proposal_data_check(block: BlockData, safety_data: SafetyData) -> Result<
    (),
    ErrorView,
> {
    after(
        epoch_check(block.epoch, safety_data),
        proposal_round_check(block.round, safety_data),
    )
}

/// Whether a proposal may be signed, given the stored safety data and what
/// checking its certificate gave.
pub open spec fn sign_proposal_decision(
    rules: RulesView,
    block: BlockData,
    safety_data: Result<SafetyData, ErrorView>,
    check: Result<(), Seq<char>>,
) -> Result<(), ErrorView> {
    after(
        author_check(rules, block.author),
        match safety_data {
            Err(error) => Err(error),
            Ok(safety_data) => after(
                proposal_data_check(block, safety_data),
                after(
                    qc_check(rules, check),
                    match preferred(block.quorum_cert, safety_data) {
                        Ok(_) => Ok(()),
                        Err(error) => Err(error),
                    },
                ),
            ),
        },
    )
}

/// A proposal by this validator, which waits for the stored safety data.
#[must_use]
pub struct ProposalSafetyData<'a> {
    rules: &'a SafetyRules,
    block: &'a BlockData,
}

/// A proposal that the safety data allows, which waits for its certificate to be
/// checked.
#[must_use]
pub struct ProposalQuorumCert<'a> {
    rules: &'a SafetyRules,
    block: &'a BlockData,
    safety_data: SafetyData,
    verifier: &'a ValidatorVerifier,
}

/// A proposal that every rule allows, which waits for its signature.
#[must_use]
pub struct ProposalSigning<'a> {
    rules: &'a SafetyRules,
    block: &'a BlockData,
    safety_data: Ghost<SafetyData>,
    rounds: RememberedRounds,
    observed: SafetyData,
    request: SigningRequest<'a, BlockData>,
}

impl SafetyRules {
    /// Starts to sign a proposal of the validator's own.
    pub fn guarded_sign_proposal<'a>(&'a self, block_data: &'a BlockData) -> (r: Result<
        ProposalSafetyData<'a>,
        Error,
    >)
        ensures
            match r {
                Ok(next) => {
                    &&& author_check(self@, block_data.author) == Ok::<_, ErrorView>(())
                    &&& self@.epoch_state is Some
                    &&& next.spec_rules() == self@
                    &&& next.spec_block() == *block_data
                },
                Err(error) => {
                    &&& author_check(self@, block_data.author) == Err::<(), _>(error@)
                    &&& forall|safety_data, check| #[trigger]
                        sign_proposal_decision(self@, *block_data, safety_data, check) == Err::<
                            (),
                            _,
                        >(error@)
                },
            },
    {
        self.signer()?;
        self.verify_author(&block_data.author)?;
        Ok(ProposalSafetyData { rules: self, block: block_data })
    }
}

impl<'a> ProposalSafetyData<'a> {
    pub closed spec fn spec_rules(self) -> RulesView {
        self.rules@
    }

    pub closed spec fn spec_block(self) -> BlockData {
        *self.block
    }

    #[verifier::type_invariant]
    closed spec fn inv(self) -> bool {
        &&& author_check(self.rules@, self.block.author) is Ok
        &&& self.rules@.epoch_state is Some
    }

    /// Goes on with the stored safety data.
    pub fn safety_data(self, read: Result<SafetyData, Error>) -> (r: Result<
        ProposalQuorumCert<'a>,
        Error,
    >)
        ensures
            match r {
                Ok(next) => {
                    &&& viewed(read) == Ok::<_, ErrorView>(next.spec_safety_data())
                    &&& read == Ok::<_, Error>(next.spec_safety_data())
                    &&& self.spec_block().epoch == next.spec_safety_data().epoch
                    &&& self.spec_block().round > next.spec_safety_data().last_voted_round
                    &&& proposal_data_check(self.spec_block(), next.spec_safety_data()) == Ok::<
                        _,
                        ErrorView,
                    >(())
                    &&& epoch_state_of(self.spec_rules()) is Ok
                    &&& next.spec_rules() == self.spec_rules()
                    &&& next.spec_block() == self.spec_block()
                },
                Err(error) => {
                    &&& match read {
                        Err(failure) => error == failure,
                        Ok(safety_data) => if self.spec_block().epoch != safety_data.epoch {
                            error@ == ErrorView::IncorrectEpoch(
                                self.spec_block().epoch,
                                safety_data.epoch,
                            )
                        } else {
                            &&& self.spec_block().round <= safety_data.last_voted_round
                            &&& error@ == ErrorView::InvalidProposal(
                                round_not_higher(
                                    self.spec_block().round,
                                    safety_data.last_voted_round,
                                ),
                            )
                        },
                    }
                    &&& forall|check| #[trigger]
                        sign_proposal_decision(
                            self.spec_rules(),
                            self.spec_block(),
                            viewed(read),
                            check,
                        ) == Err::<(), _>(error@)
                },
            },
    {
        proof {
            use_type_invariant(&self);
        }
        let safety_data = read?;
        self.rules.verify_epoch(self.block.epoch, &safety_data)?;
        if self.block.round <= safety_data.last_voted_round {
            return Err(
                Error::InvalidProposal(
                    round_not_higher_text(self.block.round, safety_data.last_voted_round),
                ),
            );
        }
        let verifier = &self.rules.epoch_state()?.verifier;
        Ok(ProposalQuorumCert { rules: self.rules, block: self.block, safety_data, verifier })
    }
}

impl<'a> ProposalQuorumCert<'a> {
    pub closed spec fn spec_rules(self) -> RulesView {
        self.rules@
    }

    pub closed spec fn spec_block(self) -> BlockData {
        *self.block
    }

    pub closed spec fn spec_safety_data(self) -> SafetyData {
        self.safety_data
    }

    #[verifier::type_invariant]
    closed spec fn inv(self) -> bool {
        &&& author_check(self.rules@, self.block.author) is Ok
        &&& proposal_data_check(*self.block, self.safety_data) is Ok
        &&& self.rules@.epoch_state matches Some(epoch_state)
        &&& epoch_state.verifier == self.verifier@
    }

    /// The certificate to check.
    pub fn quorum_cert(&self) -> (r: &'a QuorumCert)
        ensures
            *r == self.spec_block().quorum_cert,
    {
        &self.block.quorum_cert
    }

    /// The validators to check it against.
    pub fn validators(&self) -> (r: &'a ValidatorVerifier)
        ensures
            self.spec_rules().epoch_state matches Some(epoch_state) && r@
                == epoch_state.verifier,
    {
        proof {
            use_type_invariant(self);
        }
        self.verifier
    }

    /// Goes on with what checking the certificate gave.
    pub fn quorum_cert_checked(self, check: Result<(), String>) -> (r: Result<
        ProposalSigning<'a>,
        Error,
    >)
        ensures
            ({
                let decision = sign_proposal_decision(
                    self.spec_rules(),
                    self.spec_block(),
                    Ok(self.spec_safety_data()),
                    told(check),
                );
                match r {
                    Ok(next) => {
                        &&& check is Ok
                        &&& self.spec_block().quorum_cert.certified_block.round
                            >= self.spec_safety_data().preferred_round
                        &&& decision == Ok::<_, ErrorView>(())
                        &&& next.spec_rules() == self.spec_rules()
                        &&& next.spec_block() == self.spec_block()
                        &&& next.spec_safety_data() == self.spec_safety_data()
                    },
                    Err(error) => {
                        &&& match check {
                            Err(text) => error@ == ErrorView::InvalidQuorumCertificate(text@),
                            Ok(_) => {
                                &&& self.spec_block().quorum_cert.certified_block.round
                                    < self.spec_safety_data().preferred_round
                                &&& error@ == ErrorView::IncorrectPreferredRound(
                                    self.spec_block().quorum_cert.certified_block.round,
                                    self.spec_safety_data().preferred_round,
                                )
                            },
                        }
                        &&& decision == Err::<(), _>(error@)
                    },
                }
            }),
    {
        proof {
            use_type_invariant(&self);
        }
        let ghost read = self.safety_data;
        let rounds = RememberedRounds::of(&self.safety_data);
        let mut safety_data = self.safety_data;
        self.rules.verify_qc(check)?;
        self.rules.verify_and_update_preferred_round(&self.block.quorum_cert, &mut safety_data)?;
        let request = self.rules.sign(self.block)?;
        Ok(
            ProposalSigning {
                rules: self.rules,
                block: self.block,
                safety_data: Ghost(read),
                rounds,
                observed: safety_data,
                request,
            },
        )
    }
}

impl<'a> ProposalSigning<'a> {
    pub closed spec fn spec_rules(self) -> RulesView {
        self.rules@
    }

    pub closed spec fn spec_block(self) -> BlockData {
        *self.block
    }

    /// The safety data as it was read.
    pub closed spec fn spec_safety_data(self) -> SafetyData {
        self.safety_data@
    }

    #[verifier::type_invariant]
    closed spec fn inv(self) -> bool {
        &&& sign_proposal_decision(self.rules@, *self.block, Ok(self.safety_data@), Ok(())) is Ok
        &&& self.rounds == rounds_of(self.safety_data@)
        &&& preferred(self.block.quorum_cert, self.safety_data@) == Ok::<_, ErrorView>(
            self.observed,
        )
        &&& signer_of(self.rules@) == Ok::<_, ErrorView>(self.request.spec_signer())
        &&& self.request.spec_message() == *self.block
    }

    /// The safety data once the proposal's certificate has been seen. It is not
    /// to be stored: it will be when the validator votes.
    pub fn observed(&self) -> (r: &SafetyData)
        ensures
            preferred(self.spec_block().quorum_cert, self.spec_safety_data()) == Ok::<_, ErrorView>(
                *r,
            ),
    {
        proof {
            use_type_invariant(self);
        }
        &self.observed
    }

    /// What the proposal's certificate raised.
    pub fn updates(&self) -> (r: Vec<RoundUpdate>)
        ensures
            preferred(self.spec_block().quorum_cert, self.spec_safety_data()) matches Ok(observed)
                && r@ == round_updates(rounds_of(self.spec_safety_data()), rounds_of(observed)),
    {
        proof {
            use_type_invariant(self);
        }
        self.rounds.updates(&self.observed)
    }

    /// What to ask the signer for.
    pub fn request(&self) -> (r: &SigningRequest<'a, BlockData>)
        ensures
            signer_of(self.spec_rules()) == Ok::<_, ErrorView>(r.spec_signer()),
            r.spec_message() == self.spec_block(),
    {
        proof {
            use_type_invariant(self);
        }
        &self.request
    }

    /// Ends with the signer's answer.
    pub fn signed(self, signature: Result<Signature, Error>) -> (r: Result<Signature, Error>)
        ensures
            r == signature,
            sign_proposal_decision(
                self.spec_rules(),
                self.spec_block(),
                Ok(self.spec_safety_data()),
                Ok(()),
            ) == Ok::<_, ErrorView>(()),
    {
        proof {
            use_type_invariant(&self);
        }
        signature
    }
}

} // verus!
