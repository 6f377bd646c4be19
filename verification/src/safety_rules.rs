//! The state that the rules keep, and the rules that every request shares.

use crate::error::{viewed, told, Error, ErrorView};
use crate::signer::{ConfigurableValidatorSigner, SigningRequest};
use crate::types::{
    Author, EpochState, EpochStateView, PublicKey, QuorumCert, Round, SafetyData,
};
use vstd::prelude::*;

verus! {

/// The round that follows `round`.
pub fn next_round(round: Round) -> (r: Result<Round, Error>)
    ensures
        viewed(r) == (if round < u64::MAX {
            Ok((round + 1) as u64)
        } else {
            Err(ErrorView::IncorrectRound(round))
        }),
{
    match round.checked_add(1) {
        Some(next) => Ok(next),
        None => Err(Error::IncorrectRound(round)),
    }
}

/// A validator's rules for what it may sign.
pub struct SafetyRules {
    pub(crate) execution_public_key: Option<PublicKey>,
    pub(crate) export_consensus_key: bool,
    pub(crate) validator_signer: Option<ConfigurableValidatorSigner>,
    pub(crate) epoch_state: Option<EpochState>,
}

/// What the rules hold.
pub struct RulesView {
    /// The key that executions are signed with, where that is checked.
    pub execution_public_key: Option<PublicKey>,
    /// Whether the consensus key is taken out of storage.
    pub export_consensus_key: bool,
    /// The signer, once the validator knows its key for the epoch.
    pub validator_signer: Option<ConfigurableValidatorSigner>,
    /// The epoch that certificates are checked against.
    pub epoch_state: Option<EpochStateView>,
}

impl View for SafetyRules {
    type V = RulesView;

    open(crate) spec fn view(&self) -> RulesView {
        RulesView {
            execution_public_key: self.execution_public_key,
            export_consensus_key: self.export_consensus_key,
            validator_signer: self.validator_signer,
            epoch_state: match self.epoch_state {
                Some(epoch_state) => Some(epoch_state@),
                None => None,
            },
        }
    }
}

/// The signer, or the refusal where there is none.
pub open spec fn signer_of(rules: RulesView) -> Result<ConfigurableValidatorSigner, ErrorView> {
    match rules.validator_signer {
        Some(signer) => Ok(signer),
        None => Err(ErrorView::NotInitialized("validator_signer"@)),
    }
}

/// The epoch state, or the refusal where there is none.
pub open spec fn epoch_state_of(rules: RulesView) -> Result<EpochStateView, ErrorView> {
    match rules.epoch_state {
        Some(epoch_state) => Ok(epoch_state),
        None => Err(ErrorView::NotInitialized("epoch_state"@)),
    }
}

/// A proposal is by the validator that signs it.
pub open spec fn author_check(rules: RulesView, author: Option<Author>) -> Result<(), ErrorView> {
    match signer_of(rules) {
        Err(error) => Err(error),
        Ok(signer) => match author {
            None => Err(ErrorView::InvalidProposal("No author found in the proposal"@)),
            Some(author) => if author.address@ == signer.spec_author().address@ {
                Ok(())
            } else {
                Err(ErrorView::InvalidProposal("Proposal author is not validator signer!"@))
            },
        },
    }
}

/// A request is of the epoch that the safety data is of.
pub open spec fn epoch_check(epoch: u64, safety_data: SafetyData) -> Result<(), ErrorView> {
    if epoch == safety_data.epoch {
        Ok(())
    } else {
        Err(ErrorView::IncorrectEpoch(epoch, safety_data.epoch))
    }
}

/// The first voting rule: a vote is in a later round than the last one, and
/// becomes the last one.
pub open spec fn voted(round: Round, safety_data: SafetyData) -> Result<SafetyData, ErrorView> {
    if round > safety_data.last_voted_round {
        Ok(SafetyData { last_voted_round: round, ..safety_data })
    } else {
        Err(ErrorView::IncorrectLastVotedRound(round, safety_data.last_voted_round))
    }
}

/// The higher of two rounds.
pub open spec fn higher(a: Round, b: Round) -> Round {
    if a >= b {
        a
    } else {
        b
    }
}

/// The safety data once a certificate has been seen: the highest certified round
/// and the highest round of a certified block's parent.
pub open spec fn observed(qc: QuorumCert, safety_data: SafetyData) -> SafetyData {
    SafetyData {
        one_chain_round: higher(safety_data.one_chain_round, qc.certified_block.round),
        preferred_round: higher(safety_data.preferred_round, qc.parent_block.round),
        ..safety_data
    }
}

/// The second voting rule: a certificate is of no earlier round than the
/// preferred one, and is then seen.
pub open spec fn preferred(qc: QuorumCert, safety_data: SafetyData) -> Result<
    SafetyData,
    ErrorView,
> {
    if qc.certified_block.round >= safety_data.preferred_round {
        Ok(observed(qc, safety_data))
    } else {
        Err(
            ErrorView::IncorrectPreferredRound(
                qc.certified_block.round,
                safety_data.preferred_round,
            ),
        )
    }
}

/// A certificate has valid signatures. `check` is what checking them against the
/// epoch's validators gave.
pub open spec fn qc_check(rules: RulesView, check: Result<(), Seq<char>>) -> Result<
    (),
    ErrorView,
> {
    match epoch_state_of(rules) {
        Err(error) => Err(error),
        Ok(_) => match check {
            Ok(_) => Ok(()),
            Err(text) => Err(ErrorView::InvalidQuorumCertificate(text)),
        },
    }
}

impl SafetyRules {
    /// A signer is held only in an epoch.
    #[verifier::type_invariant]
    pub(crate) open(crate) spec fn inv(self) -> bool {
        self.validator_signer is Some ==> self.epoch_state is Some
    }

    /// Rules that know no epoch and no signer yet. Where the signatures of vote
    /// proposals are to be verified, the key to verify them with is given.
    pub fn new(
        execution_public_key: Option<PublicKey>,
        verify_vote_proposal_signature: bool,
        export_consensus_key: bool,
    ) -> (r: Self)
        requires
            verify_vote_proposal_signature ==> execution_public_key is Some,
        ensures
            r@ == (RulesView {
                execution_public_key: if verify_vote_proposal_signature {
                    execution_public_key
                } else {
                    None
                },
                export_consensus_key,
                validator_signer: None,
                epoch_state: None,
            }),
    {
        let execution_public_key = if verify_vote_proposal_signature {
            execution_public_key
        } else {
            None
        };
        SafetyRules {
            execution_public_key,
            export_consensus_key,
            validator_signer: None,
            epoch_state: None,
        }
    }

    /// Takes over an epoch.
    pub(crate) fn set_epoch_state(&mut self, epoch_state: EpochState)
        ensures
            final(self)@ == (RulesView { epoch_state: Some(epoch_state@), ..old(self)@ }),
    {
        self.epoch_state = Some(epoch_state);
    }

    /// Drops the signer.
    pub(crate) fn clear_signer(&mut self)
        ensures
            final(self)@ == (RulesView { validator_signer: None, ..old(self)@ }),
    {
        self.validator_signer = None;
    }

    /// Takes on a signer for the epoch.
    pub(crate) fn set_signer(&mut self, signer: ConfigurableValidatorSigner)
        requires
            old(self)@.epoch_state is Some,
        ensures
            final(self)@ == (RulesView { validator_signer: Some(signer), ..old(self)@ }),
    {
        self.validator_signer = Some(signer);
    }

    /// The signer, once the rules are initialized. Rules that have one are in an
    /// epoch.
    pub fn signer(&self) -> (r: Result<&ConfigurableValidatorSigner, Error>)
        ensures
            match r {
                Ok(signer) => {
                    &&& signer_of(self@) == Ok::<_, ErrorView>(*signer)
                    &&& self@.epoch_state is Some
                },
                Err(error) => signer_of(self@) == Err::<ConfigurableValidatorSigner, _>(error@),
            },
    {
        proof {
            use_type_invariant(self);
        }
        match &self.validator_signer {
            Some(signer) => Ok(signer),
            None => Err(Error::NotInitialized("validator_signer".to_owned())),
        }
    }

    /// The epoch, once the rules are initialized.
    pub fn epoch_state(&self) -> (r: Result<&EpochState, Error>)
        ensures
            match r {
                Ok(epoch_state) => epoch_state_of(self@) == Ok::<_, ErrorView>(epoch_state@),
                Err(error) => epoch_state_of(self@) == Err::<EpochStateView, _>(error@),
            },
    {
        match &self.epoch_state {
            Some(epoch_state) => Ok(epoch_state),
            None => Err(Error::NotInitialized("epoch_state".to_owned())),
        }
    }

    /// What to ask the signer for, so that `message` gets signed.
    pub fn sign<'a, M>(&'a self, message: &'a M) -> (r: Result<SigningRequest<'a, M>, Error>)
        ensures
            match r {
                Ok(request) => {
                    &&& signer_of(self@) == Ok::<_, ErrorView>(request.spec_signer())
                    &&& request.spec_message() == *message
                },
                Err(error) => signer_of(self@) == Err::<ConfigurableValidatorSigner, _>(error@),
            },
    {
        let signer = self.signer()?;
        Ok(SigningRequest { signer, message })
    }

    /// Takes note of a certificate. Whether that taught anything new.
    pub fn observe_qc(&self, qc: &QuorumCert, safety_data: &mut SafetyData) -> (updated: bool)
        ensures
            *final(safety_data) == observed(*qc, *old(safety_data)),
            updated <==> *final(safety_data) != *old(safety_data),
    {
        let mut updated = false;
        let one_chain: Round = qc.certified_block.round;
        let two_chain: Round = qc.parent_block.round;
        if one_chain > safety_data.one_chain_round {
            safety_data.one_chain_round = one_chain;
            updated = true;
        }
        if two_chain > safety_data.preferred_round {
            safety_data.preferred_round = two_chain;
            updated = true;
        }
        updated
    }

    /// Second voting rule.
    pub fn verify_and_update_preferred_round(
        &self,
        quorum_cert: &QuorumCert,
        safety_data: &mut SafetyData,
    ) -> (r: Result<bool, Error>)
        ensures
            match r {
                Ok(updated) => {
                    &&& preferred(*quorum_cert, *old(safety_data)) == Ok::<_, ErrorView>(
                        *final(safety_data),
                    )
                    &&& updated <==> *final(safety_data) != *old(safety_data)
                },
                Err(error) => {
                    &&& preferred(*quorum_cert, *old(safety_data)) == Err::<SafetyData, _>(error@)
                    &&& *final(safety_data) == *old(safety_data)
                },
            },
    {
        let preferred_round: Round = safety_data.preferred_round;
        let one_chain_round: Round = quorum_cert.certified_block.round;

        if one_chain_round < preferred_round {
            return Err(Error::IncorrectPreferredRound(one_chain_round, preferred_round));
        }
        Ok(self.observe_qc(quorum_cert, safety_data))
    }

    /// Whether the author of a proposal is the validator that is to sign it.
    pub fn verify_author(&self, author: &Option<Author>) -> (r: Result<(), Error>)
        ensures
            viewed(r) == author_check(self@, *author),
    {
        let validator_signer_author = self.signer()?.author();
        match author {
            None => Err(Error::InvalidProposal("No author found in the proposal".to_owned())),
            Some(author) => {
                if !validator_signer_author.same(author) {
                    return Err(
                        Error::InvalidProposal(
                            "Proposal author is not validator signer!".to_owned(),
                        ),
                    );
                }
                Ok(())
            },
        }
    }

    /// Whether a request is of the epoch that the safety data is of.
    pub fn verify_epoch(&self, epoch: u64, safety_data: &SafetyData) -> (r: Result<(), Error>)
        ensures
            viewed(r) == epoch_check(epoch, *safety_data),
    {
        if epoch != safety_data.epoch {
            return Err(Error::IncorrectEpoch(epoch, safety_data.epoch));
        }
        Ok(())
    }

    /// First voting rule.
    pub fn verify_and_update_last_vote_round(
        &self,
        round: Round,
        safety_data: &mut SafetyData,
    ) -> (r: Result<(), Error>)
        ensures
            match r {
                Ok(_) => voted(round, *old(safety_data)) == Ok::<_, ErrorView>(
                    *final(safety_data),
                ),
                Err(error) => {
                    &&& voted(round, *old(safety_data)) == Err::<SafetyData, _>(error@)
                    &&& *final(safety_data) == *old(safety_data)
                },
            },
    {
        if round <= safety_data.last_voted_round {
            return Err(Error::IncorrectLastVotedRound(round, safety_data.last_voted_round));
        }
        safety_data.last_voted_round = round;
        Ok(())
    }

    /// Whether a certificate has valid signatures. `check` is what checking them
    /// against the epoch's validators gave.
    pub fn verify_qc(&self, check: Result<(), String>) -> (r: Result<(), Error>)
        ensures
            viewed(r) == qc_check(self@, told(check)),
    {
        self.epoch_state()?;
        match check {
            Ok(_) => Ok(()),
            Err(text) => Err(Error::InvalidQuorumCertificate(text)),
        }
    }
}

} // verus!
