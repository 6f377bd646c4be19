//! What a run of the request to sign a proposal comes to, in terms of the proposal, of
//! the rules, and of what each step was told.

use crate::error::Error;
use crate::laws::shared::{rounds_raised, tells_exactly};
use crate::laws::values::account;
use crate::rounds::RoundUpdate;
use crate::safety_rules::SafetyRules;
use crate::sign_proposal::{ProposalQuorumCert, ProposalSafetyData, ProposalSigning};
use crate::signer::{ConfigurableValidatorSigner, SigningRequest};
use crate::text::decimal;
use crate::types::{BlockData, QuorumCert, SafetyData, Signature, ValidatorVerifier};
use vstd::prelude::*;

verus! {

/// A proposal is taken up exactly when it is by the account that the signer signs for.
pub proof fn a_proposal_is_taken_up_from_the_signers_account<'a>(
    rules: &'a SafetyRules,
    block: &'a BlockData,
    r: Result<ProposalSafetyData<'a>, Error>,
)
    requires
        call_ensures(SafetyRules::guarded_sign_proposal, (rules, block), r),
    ensures
        r is Ok <==> {
            &&& rules@.validator_signer matches Some(signer)
            &&& block.author matches Some(named)
            &&& named.address@ == account(signer).address@
        },
        rules@.validator_signer is None ==> (r matches Err(Error::NotInitialized(text)) && text@
            == "validator_signer"@),
        rules@.validator_signer is Some && block.author is None ==> (r matches Err(
            Error::InvalidProposal(text),
        ) && text@ == "No author found in the proposal"@),
        rules@.validator_signer is Some && block.author is Some && r is Err ==> (r matches Err(
            Error::InvalidProposal(text),
        ) && text@ == "Proposal author is not validator signer!"@),
{
}

/// With the safety data that was read, a proposal goes on exactly when it is of the
/// data's epoch and of any round above the last voted one. The certificate to check is
/// the proposal's, and the validators to check it against are those of the epoch.
pub proof fn a_proposal_goes_on_in_any_later_round<'a>(
    rules: &'a SafetyRules,
    block: &'a BlockData,
    start: ProposalSafetyData<'a>,
    read: Result<SafetyData, Error>,
    r: Result<ProposalQuorumCert<'a>, Error>,
)
    requires
        call_ensures(SafetyRules::guarded_sign_proposal, (rules, block), Ok(start)),
        call_ensures(ProposalSafetyData::safety_data, (start, read), r),
    ensures
        r is Ok <==> {
            &&& read matches Ok(safety_data)
            &&& block.epoch == safety_data.epoch
            &&& block.round > safety_data.last_voted_round
        },
        read is Err ==> r is Err && r->Err_0 == read->Err_0,
        read is Ok && block.epoch != read->Ok_0.epoch ==> r == Err::<ProposalQuorumCert<'a>, _>(
            Error::IncorrectEpoch(block.epoch, read->Ok_0.epoch),
        ),
        read is Ok && block.epoch == read->Ok_0.epoch && r is Err ==> (r matches Err(
            Error::InvalidProposal(text),
        ) && text@ == "Proposed round "@ + decimal(block.round as nat)
            + " is not higher than last voted round "@ + decimal(
            read->Ok_0.last_voted_round as nat,
        )),
        forall|quorum_cert: &'a QuorumCert|
            r is Ok && #[trigger] call_ensures(
                ProposalQuorumCert::quorum_cert,
                (&r->Ok_0,),
                quorum_cert,
            ) ==> *quorum_cert == block.quorum_cert,
        forall|validators: &'a ValidatorVerifier|
            r is Ok && #[trigger] call_ensures(
                ProposalQuorumCert::validators,
                (&r->Ok_0,),
                validators,
            ) ==> {
                &&& rules@.epoch_state is Some
                &&& rules@.epoch_state->Some_0.verifier.validators == validators.validators@
                &&& rules@.epoch_state->Some_0.verifier.quorum_voting_power
                    == validators.quorum_voting_power
            },
{
}

/// A proposal that got to its certificate is to be signed exactly when that verifies
/// and certifies a block of no earlier round than the preferred one.
pub proof fn a_proposal_is_signed_on_a_recent_certificate<'a>(
    rules: &'a SafetyRules,
    block: &'a BlockData,
    start: ProposalSafetyData<'a>,
    safety_data: SafetyData,
    next: ProposalQuorumCert<'a>,
    check: Result<(), String>,
    r: Result<ProposalSigning<'a>, Error>,
)
    requires
        call_ensures(SafetyRules::guarded_sign_proposal, (rules, block), Ok(start)),
        call_ensures(ProposalSafetyData::safety_data, (start, Ok(safety_data)), Ok(next)),
        call_ensures(ProposalQuorumCert::quorum_cert_checked, (next, check), r),
    ensures
        r is Ok <==> check is Ok && block.quorum_cert.certified_block.round
            >= safety_data.preferred_round,
        check is Err ==> (r matches Err(Error::InvalidQuorumCertificate(text)) && text@
            == check->Err_0@),
        check is Ok && r is Err ==> r->Err_0 == Error::IncorrectPreferredRound(
            block.quorum_cert.certified_block.round,
            safety_data.preferred_round,
        ),
{
}

/// What is to be signed in the end is the proposal, by the signer that the rules hold,
/// and the answer is the signer's. What the certificate taught is told.
pub proof fn the_proposal_itself_is_signed<'a>(
    rules: &'a SafetyRules,
    block: &'a BlockData,
    start: ProposalSafetyData<'a>,
    safety_data: SafetyData,
    next: ProposalQuorumCert<'a>,
    check: Result<(), String>,
    last: ProposalSigning<'a>,
    request: &SigningRequest<'a, BlockData>,
    observed: &SafetyData,
    updates: Vec<RoundUpdate>,
    signature: Result<Signature, Error>,
    r: Result<Signature, Error>,
)
    requires
        call_ensures(SafetyRules::guarded_sign_proposal, (rules, block), Ok(start)),
        call_ensures(ProposalSafetyData::safety_data, (start, Ok(safety_data)), Ok(next)),
        call_ensures(ProposalQuorumCert::quorum_cert_checked, (next, check), Ok(last)),
        call_ensures(ProposalSigning::request, (&last,), request),
        call_ensures(ProposalSigning::observed, (&last,), observed),
        call_ensures(ProposalSigning::updates, (&last,), updates),
        call_ensures(ProposalSigning::signed, (last, signature), r),
    ensures
        r == signature,
        rounds_raised(block.quorum_cert, safety_data, *observed),
        tells_exactly(
            updates@,
            RoundUpdate::OneChainRound(block.quorum_cert.certified_block.round),
            block.quorum_cert.certified_block.round > safety_data.one_chain_round,
            RoundUpdate::PreferredRound(block.quorum_cert.parent_block.round),
            block.quorum_cert.parent_block.round > safety_data.preferred_round,
            RoundUpdate::LastVotedRound(safety_data.last_voted_round),
            false,
        ),
        forall|signer: &'a ConfigurableValidatorSigner| #[trigger]
            call_ensures(SigningRequest::<'a, BlockData>::signer, (request,), signer)
                ==> rules@.validator_signer == Some(*signer),
        forall|message: &'a BlockData| #[trigger]
            call_ensures(SigningRequest::<'a, BlockData>::message, (request,), message) ==> *message
                == *block,
        block.round > safety_data.last_voted_round,
        block.epoch == safety_data.epoch,
        check is Ok,
{
    let one_chain = block.quorum_cert.certified_block.round > safety_data.one_chain_round;
    let preferred = block.quorum_cert.parent_block.round > safety_data.preferred_round;
    let first = if one_chain {
        seq![RoundUpdate::OneChainRound(block.quorum_cert.certified_block.round)]
    } else {
        seq![]
    };
    let second = if preferred {
        seq![RoundUpdate::PreferredRound(block.quorum_cert.parent_block.round)]
    } else {
        seq![]
    };
    assert(updates@ =~= first + second);
    if one_chain {
        assert(updates@[0] == RoundUpdate::OneChainRound(
            block.quorum_cert.certified_block.round,
        ));
    }
    if preferred {
        assert(updates@[first.len() as int] == RoundUpdate::PreferredRound(
            block.quorum_cert.parent_block.round,
        ));
    }
}

} // verus!
