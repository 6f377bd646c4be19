//! Verifying that a proposal may be voted for.
//!
//! The request runs in steps, in this order: the signature of the execution
//! where that is asked for, the stored safety data, the block's certificate, the
//! signature of its author, its form, and last the vote data. Each step takes
//! what the outside had to say and refuses, or hands over to the next.

use crate::error::{after, told, viewed, Error, ErrorView};
use crate::safety_rules::{epoch_check, epoch_state_of, qc_check, RulesView, SafetyRules};
use crate::types::{
    BlockData, MaybeSignedVoteProposal, PublicKey, QuorumCert, SafetyData, Signature,
    ValidatorVerifier, VoteData, VoteProposal,
};
use vstd::prelude::*;

verus! {

/// What the outside has to say of a vote proposal.
pub struct ProposalReplies {
    /// Whether the execution's signature is valid.
    pub execution_signature: Result<(), Seq<char>>,
    /// The stored safety data.
    pub safety_data: Result<SafetyData, ErrorView>,
    /// Whether the signatures of the block's certificate are valid.
    pub quorum_cert: Result<(), Seq<char>>,
    /// Whether the signature of the block's author is valid.
    pub block_signature: Result<(), Seq<char>>,
    /// Whether the block is well formed.
    pub well_formed: Result<(), Seq<char>>,
    /// What to vote on.
    pub vote_data: Result<VoteData, Seq<char>>,
}

/// Where the rules hold an execution key, a vote proposal is signed with it.
pub open spec fn execution_signature_check(
    rules: RulesView,
    proposal: MaybeSignedVoteProposal,
    check: Result<(), Seq<char>>,
) -> Result<(), ErrorView> {
    match rules.execution_public_key {
        None => Ok(()),
        Some(_) => match proposal.signature {
            None => Err(ErrorView::VoteProposalSignatureNotFound),
            Some(_) => match check {
                Ok(_) => Ok(()),
                Err(text) => Err(ErrorView::InternalError(text)),
            },
        },
    }
}

/// A failed check of the block itself makes the proposal invalid.
pub open spec fn block_check(check: Result<(), Seq<char>>) -> Result<(), ErrorView> {
    match check {
        Ok(_) => Ok(()),
        Err(text) => Err(ErrorView::InvalidProposal(text)),
    }
}

/// The vote data of a proposal whose block extends its parent.
pub open spec fn extension_check(vote_data: Result<VoteData, Seq<char>>) -> Result<
    VoteData,
    ErrorView,
> {
    match vote_data {
        Ok(vote_data) => Ok(vote_data),
        Err(text) => Err(ErrorView::InvalidAccumulatorExtension(text)),
    }
}

/// What may be voted on, given what the outside has to say of the proposal.
pub open spec fn verify_proposal_decision(
    rules: RulesView,
    proposal: MaybeSignedVoteProposal,
    replies: ProposalReplies,
) -> Result<VoteData, ErrorView> {
    after(
        execution_signature_check(rules, proposal, replies.execution_signature),
        match replies.safety_data {
            Err(error) => Err(error),
            Ok(safety_data) => after(
                epoch_check(proposal.vote_proposal.block.epoch, safety_data),
                after(
                    qc_check(rules, replies.quorum_cert),
                    after(
                        block_check(replies.block_signature),
                        after(
                            block_check(replies.well_formed),
                            extension_check(replies.vote_data),
                        ),
                    ),
                ),
            ),
        },
    )
}

/// The first step of verifying a proposal.
#[must_use]
pub enum VoteProposalStart<'a> {
    /// The execution's signature is to be checked.
    ExecutionSignature(VoteExecutionSignature<'a>),
    /// No signature of the execution is asked for.
    SafetyData(VoteSafetyData<'a>),
}

/// A signed proposal, which waits for the execution's signature to be checked.
#[must_use]
pub struct VoteExecutionSignature<'a> {
    rules: &'a SafetyRules,
    proposal: &'a MaybeSignedVoteProposal,
    public_key: PublicKey,
    signature: Signature,
}

/// A proposal that waits for the stored safety data.
#[must_use]
pub struct VoteSafetyData<'a> {
    rules: &'a SafetyRules,
    proposal: &'a MaybeSignedVoteProposal,
}

/// A proposal of the current epoch, which waits for its certificate to be checked.
#[must_use]
pub struct VoteQuorumCert<'a> {
    rules: &'a SafetyRules,
    proposal: &'a MaybeSignedVoteProposal,
    verifier: &'a ValidatorVerifier,
    safety_data: Ghost<SafetyData>,
}

/// A proposal with a valid certificate, which waits for the signature of the
/// block's author to be checked.
#[must_use]
pub struct VoteBlockSignature<'a> {
    rules: &'a SafetyRules,
    proposal: &'a MaybeSignedVoteProposal,
    verifier: &'a ValidatorVerifier,
    safety_data: Ghost<SafetyData>,
}

/// A proposal that its author signed, which waits for its form to be checked.
#[must_use]
pub struct VoteWellFormed<'a> {
    rules: &'a SafetyRules,
    proposal: &'a MaybeSignedVoteProposal,
    safety_data: Ghost<SafetyData>,
}

/// A well-formed proposal, which waits for its vote data.
#[must_use]
pub struct VoteGeneration<'a> {
    rules: &'a SafetyRules,
    proposal: &'a MaybeSignedVoteProposal,
    safety_data: Ghost<SafetyData>,
}

impl SafetyRules {
    /// Starts to verify a proposal.
    pub fn verify_proposal<'a>(
        &'a self,
        maybe_signed_vote_proposal: &'a MaybeSignedVoteProposal,
    ) -> (r: Result<VoteProposalStart<'a>, Error>)
        ensures
            match r {
                Ok(VoteProposalStart::ExecutionSignature(next)) => {
                    &&& self@.execution_public_key is Some
                    &&& maybe_signed_vote_proposal.signature is Some
                    &&& next.spec_rules() == self@
                    &&& next.spec_proposal() == *maybe_signed_vote_proposal
                },
                Ok(VoteProposalStart::SafetyData(next)) => {
                    &&& self@.execution_public_key is None
                    &&& next.spec_rules() == self@
                    &&& next.spec_proposal() == *maybe_signed_vote_proposal
                },
                Err(error) => {
                    &&& self@.execution_public_key is Some
                    &&& maybe_signed_vote_proposal.signature is None
                    &&& error == Error::VoteProposalSignatureNotFound
                    &&& forall|replies| #[trigger]
                        verify_proposal_decision(self@, *maybe_signed_vote_proposal, replies)
                            == Err::<VoteData, _>(error@)
                },
            },
    {
        match self.execution_public_key {
            Some(public_key) => match maybe_signed_vote_proposal.signature {
                Some(signature) => Ok(
                    VoteProposalStart::ExecutionSignature(
                        VoteExecutionSignature {
                            rules: self,
                            proposal: maybe_signed_vote_proposal,
                            public_key,
                            signature,
                        },
                    ),
                ),
                None => Err(Error::VoteProposalSignatureNotFound),
            },
            None => Ok(
                VoteProposalStart::SafetyData(
                    VoteSafetyData { rules: self, proposal: maybe_signed_vote_proposal },
                ),
            ),
        }
    }
}

impl<'a> VoteExecutionSignature<'a> {
    pub closed spec fn spec_rules(self) -> RulesView {
        self.rules@
    }

    pub closed spec fn spec_proposal(self) -> MaybeSignedVoteProposal {
        *self.proposal
    }

    #[verifier::type_invariant]
    closed spec fn inv(self) -> bool {
        &&& self.rules@.execution_public_key == Some(self.public_key)
        &&& self.proposal.signature == Some(self.signature)
    }

    /// The signature to check.
    pub fn signature(&self) -> (r: Signature)
        ensures
            self.spec_proposal().signature == Some(r),
    {
        proof {
            use_type_invariant(self);
        }
        self.signature
    }

    /// What it is to sign.
    pub fn vote_proposal(&self) -> (r: &'a VoteProposal)
        ensures
            *r == self.spec_proposal().vote_proposal,
    {
        &self.proposal.vote_proposal
    }

    /// The key to check it with.
    pub fn public_key(&self) -> (r: PublicKey)
        ensures
            self.spec_rules().execution_public_key == Some(r),
    {
        proof {
            use_type_invariant(self);
        }
        self.public_key
    }

    /// Goes on with what checking the signature gave.
    pub fn signature_checked(self, check: Result<(), String>) -> (r: Result<
        VoteSafetyData<'a>,
        Error,
    >)
        ensures
            match r {
                Ok(next) => {
                    &&& check is Ok
                    &&& execution_signature_check(
                        self.spec_rules(),
                        self.spec_proposal(),
                        told(check),
                    ) == Ok::<_, ErrorView>(())
                    &&& next.spec_rules() == self.spec_rules()
                    &&& next.spec_proposal() == self.spec_proposal()
                },
                Err(error) => {
                    &&& check matches Err(text)
                    &&& error@ == ErrorView::InternalError(text@)
                    &&& execution_signature_check(
                        self.spec_rules(),
                        self.spec_proposal(),
                        told(check),
                    ) == Err::<(), _>(error@)
                    &&& forall|replies: ProposalReplies|
                        replies.execution_signature == told(check)
                            ==> #[trigger] verify_proposal_decision(
                            self.spec_rules(),
                            self.spec_proposal(),
                            replies,
                        ) == Err::<VoteData, _>(error@)
                },
            },
    {
        proof {
            use_type_invariant(&self);
        }
        match check {
            Ok(_) => Ok(VoteSafetyData { rules: self.rules, proposal: self.proposal }),
            Err(text) => Err(Error::InternalError(text)),
        }
    }
}

impl<'a> VoteSafetyData<'a> {
    pub closed spec fn spec_rules(self) -> RulesView {
        self.rules@
    }

    pub closed spec fn spec_proposal(self) -> MaybeSignedVoteProposal {
        *self.proposal
    }

    #[verifier::type_invariant]
    closed spec fn inv(self) -> bool {
        execution_signature_check(self.rules@, *self.proposal, Ok(())) is Ok
    }

    /// Goes on with the stored safety data.
    pub fn safety_data(self, read: Result<SafetyData, Error>) -> (r: Result<
        VoteQuorumCert<'a>,
        Error,
    >)
        ensures
            match r {
                Ok(next) => {
                    &&& viewed(read) == Ok::<_, ErrorView>(next.spec_safety_data())
                    &&& read == Ok::<_, Error>(next.spec_safety_data())
                    &&& self.spec_proposal().vote_proposal.block.epoch
                        == next.spec_safety_data().epoch
                    &&& self.spec_rules().epoch_state is Some
                    &&& epoch_check(
                        self.spec_proposal().vote_proposal.block.epoch,
                        next.spec_safety_data(),
                    ) == Ok::<_, ErrorView>(())
                    &&& epoch_state_of(self.spec_rules()) is Ok
                    &&& next.spec_rules() == self.spec_rules()
                    &&& next.spec_proposal() == self.spec_proposal()
                },
                Err(error) => {
                    &&& match read {
                        Err(failure) => error == failure,
                        Ok(safety_data) => if self.spec_proposal().vote_proposal.block.epoch
                            != safety_data.epoch {
                            error@ == ErrorView::IncorrectEpoch(
                                self.spec_proposal().vote_proposal.block.epoch,
                                safety_data.epoch,
                            )
                        } else {
                            &&& self.spec_rules().epoch_state is None
                            &&& error@ == ErrorView::NotInitialized("epoch_state"@)
                        },
                    }
                    &&& forall|replies: ProposalReplies|
                        replies.execution_signature is Ok && replies.safety_data == viewed(read)
                            ==> #[trigger] verify_proposal_decision(
                            self.spec_rules(),
                            self.spec_proposal(),
                            replies,
                        ) == Err::<VoteData, _>(error@)
                },
            },
    {
        proof {
            use_type_invariant(&self);
        }
        let safety_data = read?;
        self.rules.verify_epoch(self.proposal.vote_proposal.block.epoch, &safety_data)?;
        let verifier = &self.rules.epoch_state()?.verifier;
        Ok(
            VoteQuorumCert {
                rules: self.rules,
                proposal: self.proposal,
                verifier,
                safety_data: Ghost(safety_data),
            },
        )
    }
}

impl<'a> VoteQuorumCert<'a> {
    pub closed spec fn spec_rules(self) -> RulesView {
        self.rules@
    }

    pub closed spec fn spec_proposal(self) -> MaybeSignedVoteProposal {
        *self.proposal
    }

    /// The safety data that was read.
    pub closed spec fn spec_safety_data(self) -> SafetyData {
        self.safety_data@
    }

    #[verifier::type_invariant]
    closed spec fn inv(self) -> bool {
        &&& execution_signature_check(self.rules@, *self.proposal, Ok(())) is Ok
        &&& epoch_check(self.proposal.vote_proposal.block.epoch, self.safety_data@) is Ok
        &&& self.rules@.epoch_state matches Some(epoch_state)
        &&& epoch_state.verifier == self.verifier@
    }

    /// The certificate to check.
    pub fn quorum_cert(&self) -> (r: &'a QuorumCert)
        ensures
            *r == self.spec_proposal().vote_proposal.block.quorum_cert,
    {
        &self.proposal.vote_proposal.block.quorum_cert
    }

    /// The validators to check it against.
    pub fn validators(&self) -> (r: &'a ValidatorVerifier)
        ensures
            self.spec_rules().epoch_state matches Some(epoch_state) && r@
                == epoch_state.verifier,
    {
        proof {
            use_type_invariant(self);
        }
        self.verifier
    }

    /// Goes on with what checking the certificate gave.
    pub fn quorum_cert_checked(self, check: Result<(), String>) -> (r: Result<
        VoteBlockSignature<'a>,
        Error,
    >)
        ensures
            match r {
                Ok(next) => {
                    &&& check is Ok
                    &&& qc_check(self.spec_rules(), told(check)) == Ok::<_, ErrorView>(())
                    &&& next.spec_rules() == self.spec_rules()
                    &&& next.spec_proposal() == self.spec_proposal()
                    &&& next.spec_safety_data() == self.spec_safety_data()
                },
                Err(error) => {
                    &&& check matches Err(text)
                    &&& error@ == ErrorView::InvalidQuorumCertificate(text@)
                    &&& qc_check(self.spec_rules(), told(check)) == Err::<(), _>(error@)
                    &&& forall|replies: ProposalReplies|
                        {
                            &&& replies.execution_signature is Ok
                            &&& replies.safety_data == Ok::<_, ErrorView>(self.spec_safety_data())
                            &&& replies.quorum_cert == told(check)
                        } ==> #[trigger] verify_proposal_decision(
                            self.spec_rules(),
                            self.spec_proposal(),
                            replies,
                        ) == Err::<VoteData, _>(error@)
                },
            },
    {
        proof {
            use_type_invariant(&self);
        }
        self.rules.verify_qc(check)?;
        Ok(
            VoteBlockSignature {
                rules: self.rules,
                proposal: self.proposal,
                verifier: self.verifier,
                safety_data: self.safety_data,
            },
        )
    }
}

impl<'a> VoteBlockSignature<'a> {
    pub closed spec fn spec_rules(self) -> RulesView {
        self.rules@
    }

    pub closed spec fn spec_proposal(self) -> MaybeSignedVoteProposal {
        *self.proposal
    }

    /// The safety data that was read.
    pub closed spec fn spec_safety_data(self) -> SafetyData {
        self.safety_data@
    }

    #[verifier::type_invariant]
    closed spec fn inv(self) -> bool {
        &&& execution_signature_check(self.rules@, *self.proposal, Ok(())) is Ok
        &&& epoch_check(self.proposal.vote_proposal.block.epoch, self.safety_data@) is Ok
        &&& self.rules@.epoch_state matches Some(epoch_state)
        &&& epoch_state.verifier == self.verifier@
    }

    /// The block whose signature is to be checked.
    pub fn block(&self) -> (r: &'a BlockData)
        ensures
            *r == self.spec_proposal().vote_proposal.block,
    {
        &self.proposal.vote_proposal.block
    }

    /// The validators to check it against.
    pub fn validators(&self) -> (r: &'a ValidatorVerifier)
        ensures
            self.spec_rules().epoch_state matches Some(epoch_state) && r@
                == epoch_state.verifier,
    {
        proof {
            use_type_invariant(self);
        }
        self.verifier
    }

    /// Goes on with what checking the signature gave.
    pub fn signature_checked(self, check: Result<(), String>) -> (r: Result<
        VoteWellFormed<'a>,
        Error,
    >)
        ensures
            match r {
                Ok(next) => {
                    &&& check is Ok
                    &&& block_check(told(check)) == Ok::<_, ErrorView>(())
                    &&& next.spec_rules() == self.spec_rules()
                    &&& next.spec_proposal() == self.spec_proposal()
                    &&& next.spec_safety_data() == self.spec_safety_data()
                },
                Err(error) => {
                    &&& check matches Err(text)
                    &&& error@ == ErrorView::InvalidProposal(text@)
                    &&& block_check(told(check)) == Err::<(), _>(error@)
                    &&& forall|replies: ProposalReplies|
                        {
                            &&& replies.execution_signature is Ok
                            &&& replies.safety_data == Ok::<_, ErrorView>(self.spec_safety_data())
                            &&& replies.quorum_cert is Ok
                            &&& replies.block_signature == told(check)
                        } ==> #[trigger] verify_proposal_decision(
                            self.spec_rules(),
                            self.spec_proposal(),
                            replies,
                        ) == Err::<VoteData, _>(error@)
                },
            },
    {
        proof {
            use_type_invariant(&self);
        }
        if let Err(text) = check {
            return Err(Error::InvalidProposal(text));
        }
        Ok(
            VoteWellFormed {
                rules: self.rules,
                proposal: self.proposal,
                safety_data: self.safety_data,
            },
        )
    }
}

impl<'a> VoteWellFormed<'a> {
    pub closed spec fn spec_rules(self) -> RulesView {
        self.rules@
    }

    pub closed spec fn spec_proposal(self) -> MaybeSignedVoteProposal {
        *self.proposal
    }

    /// The safety data that was read.
    pub closed spec fn spec_safety_data(self) -> SafetyData {
        self.safety_data@
    }

    #[verifier::type_invariant]
    closed spec fn inv(self) -> bool {
        &&& execution_signature_check(self.rules@, *self.proposal, Ok(())) is Ok
        &&& epoch_check(self.proposal.vote_proposal.block.epoch, self.safety_data@) is Ok
        &&& self.rules@.epoch_state is Some
    }

    /// The block whose form is to be checked.
    pub fn block(&self) -> (r: &'a BlockData)
        ensures
            *r == self.spec_proposal().vote_proposal.block,
    {
        &self.proposal.vote_proposal.block
    }

    /// Goes on with what checking the form gave.
    pub fn form_checked(self, check: Result<(), String>) -> (r: Result<
        VoteGeneration<'a>,
        Error,
    >)
        ensures
            match r {
                Ok(next) => {
                    &&& check is Ok
                    &&& block_check(told(check)) == Ok::<_, ErrorView>(())
                    &&& next.spec_rules() == self.spec_rules()
                    &&& next.spec_proposal() == self.spec_proposal()
                    &&& next.spec_safety_data() == self.spec_safety_data()
                },
                Err(error) => {
                    &&& check matches Err(text)
                    &&& error@ == ErrorView::InvalidProposal(text@)
                    &&& block_check(told(check)) == Err::<(), _>(error@)
                    &&& forall|replies: ProposalReplies|
                        {
                            &&& replies.execution_signature is Ok
                            &&& replies.safety_data == Ok::<_, ErrorView>(self.spec_safety_data())
                            &&& replies.quorum_cert is Ok
                            &&& replies.block_signature is Ok
                            &&& replies.well_formed == told(check)
                        } ==> #[trigger] verify_proposal_decision(
                            self.spec_rules(),
                            self.spec_proposal(),
                            replies,
                        ) == Err::<VoteData, _>(error@)
                },
            },
    {
        proof {
            use_type_invariant(&self);
        }
        if let Err(text) = check {
            return Err(Error::InvalidProposal(text));
        }
        Ok(
            VoteGeneration {
                rules: self.rules,
                proposal: self.proposal,
                safety_data: self.safety_data,
            },
        )
    }
}

impl<'a> VoteGeneration<'a> {
    pub closed spec fn spec_rules(self) -> RulesView {
        self.rules@
    }

    pub closed spec fn spec_proposal(self) -> MaybeSignedVoteProposal {
        *self.proposal
    }

    /// The safety data that was read.
    pub closed spec fn spec_safety_data(self) -> SafetyData {
        self.safety_data@
    }

    #[verifier::type_invariant]
    closed spec fn inv(self) -> bool {
        &&& execution_signature_check(self.rules@, *self.proposal, Ok(())) is Ok
        &&& epoch_check(self.proposal.vote_proposal.block.epoch, self.safety_data@) is Ok
        &&& self.rules@.epoch_state is Some
    }

    /// The proposal whose vote data is to be generated.
    pub fn vote_proposal(&self) -> (r: &'a VoteProposal)
        ensures
            *r == self.spec_proposal().vote_proposal,
    {
        &self.proposal.vote_proposal
    }

    /// Ends with the vote data, where it could be generated.
    pub fn generated(self, vote_data: Result<VoteData, String>) -> (r: Result<VoteData, Error>)
        ensures
            match vote_data {
                Ok(vote_data) => r == Ok::<_, Error>(vote_data),
                Err(text) => viewed(r) == Err::<VoteData, _>(
                    ErrorView::InvalidAccumulatorExtension(text@),
                ),
            },
            viewed(r) == extension_check(told(vote_data)),
            viewed(r) == verify_proposal_decision(
                self.spec_rules(),
                self.spec_proposal(),
                ProposalReplies {
                    execution_signature: Ok(()),
                    safety_data: Ok(self.spec_safety_data()),
                    quorum_cert: Ok(()),
                    block_signature: Ok(()),
                    well_formed: Ok(()),
                    vote_data: told(vote_data),
                },
            ),
    {
        proof {
            use_type_invariant(&self);
        }
        match vote_data {
            Ok(vote_data) => Ok(vote_data),
            Err(text) => Err(Error::InvalidAccumulatorExtension(text)),
        }
    }
}

} // verus!
