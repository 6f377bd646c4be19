//! What a run of the request to sign a commit vote comes to, in terms of the ledger
//! infos, of the rules, and of what each step was told.

use crate::error::Error;
use crate::safety_rules::SafetyRules;
use crate::sign_commit_vote::{CommitVoteExecution, CommitVoteQuorum, CommitVoteSigning};
use crate::signer::{ConfigurableValidatorSigner, SigningRequest};
use crate::types::{BlockInfo, LedgerInfo, Signature, ValidatorVerifier};
use vstd::prelude::*;

verus! {

/// A commit vote is taken up exactly when there is a signer and the block that was
/// ordered is not yet executed. The blocks to compare are those that the two ledger
/// infos commit.
pub proof fn a_commit_vote_is_taken_up_for_an_ordered_block<'a>(
    rules: &'a SafetyRules,
    ordered: &'a LedgerInfo,
    executed: &'a LedgerInfo,
    r: Result<CommitVoteExecution<'a>, Error>,
)
    requires
        call_ensures(SafetyRules::guarded_sign_commit_vote, (rules, ordered, executed), r),
    ensures
        r is Ok <==> rules@.validator_signer is Some && ordered.commit_info.ordered_only,
        rules@.validator_signer is None ==> (r matches Err(Error::NotInitialized(text)) && text@
            == "validator_signer"@),
        rules@.validator_signer is Some && r is Err ==> (r matches Err(
            Error::InvalidOrderedLedgerInfo(text),
        ) && text@ == ordered.text@),
        forall|block: &'a BlockInfo|
            r is Ok && #[trigger] call_ensures(
                CommitVoteExecution::ordered_block,
                (&r->Ok_0,),
                block,
            ) ==> *block == ordered.commit_info,
        forall|block: &'a BlockInfo|
            r is Ok && #[trigger] call_ensures(
                CommitVoteExecution::executed_block,
                (&r->Ok_0,),
                block,
            ) ==> *block == executed.commit_info,
{
}

/// A commit vote goes on exactly when the two blocks match. The signatures to check are
/// those on what was ordered, and the validators to check them against are those of the
/// epoch.
pub proof fn a_commit_vote_goes_on_when_the_blocks_match<'a>(
    rules: &'a SafetyRules,
    ordered: &'a LedgerInfo,
    executed: &'a LedgerInfo,
    start: CommitVoteExecution<'a>,
    consistent: bool,
    r: Result<CommitVoteQuorum<'a>, Error>,
)
    requires
        call_ensures(SafetyRules::guarded_sign_commit_vote, (rules, ordered, executed), Ok(start)),
        call_ensures(CommitVoteExecution::execution_matched, (start, consistent), r),
    ensures
        r is Ok <==> consistent,
        r is Err ==> (r matches Err(Error::InconsistentExecutionResult(was_ordered, was_executed))
            && was_ordered@ == ordered.commit_info.text@ && was_executed@
            == executed.commit_info.text@),
        forall|ledger_info: &'a LedgerInfo|
            r is Ok && #[trigger] call_ensures(
                CommitVoteQuorum::ledger_info,
                (&r->Ok_0,),
                ledger_info,
            ) ==> *ledger_info == *ordered,
        forall|validators: &'a ValidatorVerifier|
            r is Ok && #[trigger] call_ensures(
                CommitVoteQuorum::validators,
                (&r->Ok_0,),
                validators,
            ) ==> {
                &&& rules@.epoch_state is Some
                &&& rules@.epoch_state->Some_0.verifier.validators == validators.validators@
                &&& rules@.epoch_state->Some_0.verifier.quorum_voting_power
                    == validators.quorum_voting_power
            },
{
}

/// A commit vote is to be signed exactly when the quorum's signatures verify. What is
/// signed is what was executed, by the signer that the rules hold, and the answer is the
/// signer's.
pub proof fn what_was_executed_is_signed_for_a_quorum<'a>(
    rules: &'a SafetyRules,
    ordered: &'a LedgerInfo,
    executed: &'a LedgerInfo,
    start: CommitVoteExecution<'a>,
    consistent: bool,
    next: CommitVoteQuorum<'a>,
    check: Result<(), String>,
    r: Result<CommitVoteSigning<'a>, Error>,
)
    requires
        call_ensures(SafetyRules::guarded_sign_commit_vote, (rules, ordered, executed), Ok(start)),
        call_ensures(CommitVoteExecution::execution_matched, (start, consistent), Ok(next)),
        call_ensures(CommitVoteQuorum::signatures_checked, (next, check), r),
    ensures
        r is Ok <==> check is Ok,
        check is Err ==> (r matches Err(Error::InvalidQuorumCertificate(text)) && text@
            == check->Err_0@),
        forall|request: &SigningRequest<'a, LedgerInfo>, signer: &'a ConfigurableValidatorSigner|
            r is Ok && #[trigger] call_ensures(CommitVoteSigning::request, (&r->Ok_0,), request)
                && #[trigger] call_ensures(
                SigningRequest::<'a, LedgerInfo>::signer,
                (request,),
                signer,
            ) ==> rules@.validator_signer == Some(*signer),
        forall|request: &SigningRequest<'a, LedgerInfo>, message: &'a LedgerInfo|
            r is Ok && #[trigger] call_ensures(CommitVoteSigning::request, (&r->Ok_0,), request)
                && #[trigger] call_ensures(
                SigningRequest::<'a, LedgerInfo>::message,
                (request,),
                message,
            ) ==> *message == *executed,
        forall|signature: Result<Signature, Error>, answer: Result<Signature, Error>|
            r is Ok && #[trigger] call_ensures(
                CommitVoteSigning::signed,
                (r->Ok_0, signature),
                answer,
            ) ==> answer == signature,
{
}

} // verus!
