//! What a run of the request to verify a proposal comes to, in terms of the proposal,
//! of the rules, and of what each step was told.

use crate::error::{told, viewed, Error};
use crate::safety_rules::SafetyRules;
use crate::types::{
    BlockData, MaybeSignedVoteProposal, PublicKey, QuorumCert, SafetyData, Signature,
    ValidatorVerifier, VoteData, VoteProposal,
};
use crate::verify_proposal::{
    verify_proposal_decision, ProposalReplies, VoteBlockSignature, VoteExecutionSignature,
    VoteGeneration, VoteProposalStart, VoteQuorumCert, VoteSafetyData, VoteWellFormed,
};
use vstd::prelude::*;

verus! {

/// Where the rules hold an execution key, a proposal needs a signature, and that
/// signature is to be checked, on the proposal, with that key. Where they hold none, no
/// signature is asked for.
pub proof fn an_execution_signature_is_checked_exactly_with_a_key<'a>(
    rules: &'a SafetyRules,
    proposal: &'a MaybeSignedVoteProposal,
    r: Result<VoteProposalStart<'a>, Error>,
)
    requires
        call_ensures(SafetyRules::verify_proposal, (rules, proposal), r),
    ensures
        r is Err <==> rules@.execution_public_key is Some && proposal.signature is None,
        r is Err ==> r->Err_0 == Error::VoteProposalSignatureNotFound,
        r is Ok ==> (r->Ok_0 is ExecutionSignature <==> rules@.execution_public_key is Some),
        forall|step: VoteExecutionSignature<'a>, signature: Signature|
            r == Ok::<_, Error>(VoteProposalStart::ExecutionSignature(step))
                && #[trigger] call_ensures(VoteExecutionSignature::signature, (&step,), signature)
                ==> proposal.signature == Some(signature),
        forall|step: VoteExecutionSignature<'a>, public_key: PublicKey|
            r == Ok::<_, Error>(VoteProposalStart::ExecutionSignature(step))
                && #[trigger] call_ensures(
                VoteExecutionSignature::public_key,
                (&step,),
                public_key,
            ) ==> rules@.execution_public_key == Some(public_key),
        forall|step: VoteExecutionSignature<'a>, signed: &'a VoteProposal|
            r == Ok::<_, Error>(VoteProposalStart::ExecutionSignature(step))
                && #[trigger] call_ensures(VoteExecutionSignature::vote_proposal, (&step,), signed)
                ==> *signed == proposal.vote_proposal,
{
}

/// A signed proposal goes on exactly when the execution's signature verifies, whatever
/// else the rules hold.
pub proof fn a_proposal_goes_on_exactly_with_a_valid_execution_signature<'a>(
    step: VoteExecutionSignature<'a>,
    check: Result<(), String>,
    r: Result<VoteSafetyData<'a>, Error>,
)
    requires
        call_ensures(VoteExecutionSignature::signature_checked, (step, check), r),
    ensures
        r is Ok <==> check is Ok,
        check is Err ==> (r matches Err(Error::InternalError(text)) && text@ == check->Err_0@),
{
}

/// A proposal gets from its start to where the safety data is read: at once, or with
/// what checking the execution's signature gave.
pub open spec fn started<'a>(
    start: VoteProposalStart<'a>,
    check: Result<(), String>,
    next: VoteSafetyData<'a>,
) -> bool {
    match start {
        VoteProposalStart::ExecutionSignature(step) => call_ensures(
            VoteExecutionSignature::signature_checked,
            (step, check),
            Ok(next),
        ),
        VoteProposalStart::SafetyData(step) => step == next,
    }
}

/// With the safety data that was read, a proposal goes on exactly when it is of the
/// data's epoch and the rules are in an epoch. The certificate to check is the
/// proposal's, and the validators to check it against are those of the epoch.
pub proof fn a_proposal_goes_on_in_the_current_epoch<'a>(
    rules: &'a SafetyRules,
    proposal: &'a MaybeSignedVoteProposal,
    start: VoteProposalStart<'a>,
    signature_check: Result<(), String>,
    step: VoteSafetyData<'a>,
    read: Result<SafetyData, Error>,
    r: Result<VoteQuorumCert<'a>, Error>,
)
    requires
        call_ensures(SafetyRules::verify_proposal, (rules, proposal), Ok(start)),
        started(start, signature_check, step),
        call_ensures(VoteSafetyData::safety_data, (step, read), r),
    ensures
        r is Ok <==> {
            &&& read matches Ok(safety_data)
            &&& proposal.vote_proposal.block.epoch == safety_data.epoch
            &&& rules@.epoch_state is Some
        },
        read is Err ==> r is Err && r->Err_0 == read->Err_0,
        read is Ok && proposal.vote_proposal.block.epoch != read->Ok_0.epoch ==> r == Err::<
            VoteQuorumCert<'a>,
            _,
        >(Error::IncorrectEpoch(proposal.vote_proposal.block.epoch, read->Ok_0.epoch)),
        read is Ok && proposal.vote_proposal.block.epoch == read->Ok_0.epoch && r is Err ==> (
        r matches Err(Error::NotInitialized(text)) && text@ == "epoch_state"@),
        forall|quorum_cert: &'a QuorumCert|
            r is Ok && #[trigger] call_ensures(
                VoteQuorumCert::quorum_cert,
                (&r->Ok_0,),
                quorum_cert,
            ) ==> *quorum_cert == proposal.vote_proposal.block.quorum_cert,
        forall|validators: &'a ValidatorVerifier|
            r is Ok && #[trigger] call_ensures(
                VoteQuorumCert::validators,
                (&r->Ok_0,),
                validators,
            ) ==> {
                &&& rules@.epoch_state->Some_0.verifier.validators == validators.validators@
                &&& rules@.epoch_state->Some_0.verifier.quorum_voting_power
                    == validators.quorum_voting_power
            },
{
}

/// A proposal goes on exactly when its certificate verifies.
pub proof fn a_proposal_goes_on_exactly_with_a_valid_certificate<'a>(
    step: VoteQuorumCert<'a>,
    check: Result<(), String>,
    r: Result<VoteBlockSignature<'a>, Error>,
)
    requires
        call_ensures(VoteQuorumCert::quorum_cert_checked, (step, check), r),
    ensures
        r is Ok <==> check is Ok,
        check is Err ==> (r matches Err(Error::InvalidQuorumCertificate(text)) && text@
            == check->Err_0@),
{
}

/// A proposal goes on exactly when its author's signature verifies.
pub proof fn a_proposal_goes_on_exactly_with_a_valid_signature<'a>(
    step: VoteBlockSignature<'a>,
    check: Result<(), String>,
    r: Result<VoteWellFormed<'a>, Error>,
)
    requires
        call_ensures(VoteBlockSignature::signature_checked, (step, check), r),
    ensures
        r is Ok <==> check is Ok,
        check is Err ==> (r matches Err(Error::InvalidProposal(text)) && text@ == check->Err_0@),
{
}

/// A proposal goes on exactly when it is well formed.
pub proof fn a_proposal_goes_on_exactly_when_well_formed<'a>(
    step: VoteWellFormed<'a>,
    check: Result<(), String>,
    r: Result<VoteGeneration<'a>, Error>,
)
    requires
        call_ensures(VoteWellFormed::form_checked, (step, check), r),
    ensures
        r is Ok <==> check is Ok,
        check is Err ==> (r matches Err(Error::InvalidProposal(text)) && text@ == check->Err_0@),
{
}

/// What is voted on is what was generated, and nothing is where that failed.
pub proof fn what_was_generated_is_voted_on<'a>(
    step: VoteGeneration<'a>,
    generated: Result<VoteData, String>,
    r: Result<VoteData, Error>,
)
    requires
        call_ensures(VoteGeneration::generated, (step, generated), r),
    ensures
        generated is Ok ==> r == Ok::<_, Error>(generated->Ok_0),
        generated is Err ==> (r matches Err(Error::InvalidAccumulatorExtension(text)) && text@
            == generated->Err_0@),
{
}

/// Every check of a run is of the proposal that the run started with, against the
/// validators of the epoch. Where the run ends with something to vote on, the execution's
/// signature was valid if there is a key for it, the safety data was read and is of the
/// proposal's epoch, every other check was passed, and the vote data is what was generated.
pub proof fn what_is_voted_on_passed_every_check<'a>(
    rules: &'a SafetyRules,
    proposal: &'a MaybeSignedVoteProposal,
    start: VoteProposalStart<'a>,
    signature_check: Result<(), String>,
    step: VoteSafetyData<'a>,
    read: Result<SafetyData, Error>,
    certified: VoteQuorumCert<'a>,
    certificate_check: Result<(), String>,
    authored: VoteBlockSignature<'a>,
    author_check: Result<(), String>,
    formed: VoteWellFormed<'a>,
    form_check: Result<(), String>,
    last: VoteGeneration<'a>,
    generated: Result<VoteData, String>,
    r: Result<VoteData, Error>,
)
    requires
        call_ensures(SafetyRules::verify_proposal, (rules, proposal), Ok(start)),
        started(start, signature_check, step),
        call_ensures(VoteSafetyData::safety_data, (step, read), Ok(certified)),
        call_ensures(
            VoteQuorumCert::quorum_cert_checked,
            (certified, certificate_check),
            Ok(authored),
        ),
        call_ensures(VoteBlockSignature::signature_checked, (authored, author_check), Ok(formed)),
        call_ensures(VoteWellFormed::form_checked, (formed, form_check), Ok(last)),
        call_ensures(VoteGeneration::generated, (last, generated), r),
    ensures
        rules@.execution_public_key is Some ==> proposal.signature is Some && signature_check is Ok,
        read is Ok,
        proposal.vote_proposal.block.epoch == read->Ok_0.epoch,
        rules@.epoch_state is Some,
        certificate_check is Ok,
        author_check is Ok,
        form_check is Ok,
        r is Ok <==> generated is Ok,
        r is Ok ==> r->Ok_0 == generated->Ok_0,
        viewed(r) == verify_proposal_decision(
            rules@,
            *proposal,
            ProposalReplies {
                execution_signature: told(signature_check),
                safety_data: viewed(read),
                quorum_cert: told(certificate_check),
                block_signature: told(author_check),
                well_formed: told(form_check),
                vote_data: told(generated),
            },
        ),
        forall|block: &'a BlockData| #[trigger]
            call_ensures(VoteBlockSignature::block, (&authored,), block) ==> *block
                == proposal.vote_proposal.block,
        forall|validators: &'a ValidatorVerifier| #[trigger]
            call_ensures(VoteBlockSignature::validators, (&authored,), validators) ==> {
                &&& rules@.epoch_state->Some_0.verifier.validators == validators.validators@
                &&& rules@.epoch_state->Some_0.verifier.quorum_voting_power
                    == validators.quorum_voting_power
            },
        forall|block: &'a BlockData| #[trigger]
            call_ensures(VoteWellFormed::block, (&formed,), block) ==> *block
                == proposal.vote_proposal.block,
        forall|vote_proposal: &'a VoteProposal| #[trigger]
            call_ensures(VoteGeneration::vote_proposal, (&last,), vote_proposal) ==> *vote_proposal
                == proposal.vote_proposal,
{
}

} // verus!
