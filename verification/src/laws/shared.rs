//! What a call of each shared rule gives, in terms of what it is called with.

use crate::error::Error;
use crate::laws::values::account;
use crate::rounds::{RememberedRounds, RoundUpdate};
use crate::safety_rules::{next_round, SafetyRules};
use crate::signer::{ConfigurableValidatorSigner, SigningRequest};
use crate::types::{Author, EpochState, PublicKey, QuorumCert, Round, SafetyData};
use vstd::prelude::*;

verus! {

/// Every round but the last has a next one, which is one more.
pub proof fn the_next_round_is_one_more(round: Round, r: Result<Round, Error>)
    requires
        call_ensures(next_round, (round,), r),
    ensures
        r is Ok <==> round < u64::MAX,
        r is Ok ==> r->Ok_0 == round + 1,
        r is Err ==> r->Err_0 == Error::IncorrectRound(round),
{
}

/// New rules keep the execution key exactly where proposals are to be verified, keep
/// the export policy, and know neither a signer nor an epoch.
pub proof fn new_rules_hold_their_configuration(
    execution_public_key: Option<PublicKey>,
    verify_vote_proposal_signature: bool,
    export_consensus_key: bool,
    rules: SafetyRules,
)
    requires
        call_ensures(
            SafetyRules::new,
            (execution_public_key, verify_vote_proposal_signature, export_consensus_key),
            rules,
        ),
    ensures
        verify_vote_proposal_signature ==> rules@.execution_public_key == execution_public_key,
        !verify_vote_proposal_signature ==> rules@.execution_public_key is None,
        rules@.export_consensus_key == export_consensus_key,
        rules@.validator_signer is None,
        rules@.epoch_state is None,
{
}

/// The signer is given exactly when the rules hold one.
pub proof fn the_signer_is_the_one_held(
    rules: &SafetyRules,
    r: Result<&ConfigurableValidatorSigner, Error>,
)
    requires
        call_ensures(SafetyRules::signer, (rules,), r),
    ensures
        r is Ok <==> rules@.validator_signer is Some,
        r is Ok ==> rules@.validator_signer == Some(*r->Ok_0) && rules@.epoch_state is Some,
        r is Err ==> (r->Err_0 matches Error::NotInitialized(text) && text@ == "validator_signer"@),
{
}

/// The epoch is given exactly when the rules are in one: its number, its validators
/// and its quorum.
pub proof fn the_epoch_is_the_one_held(rules: &SafetyRules, r: Result<&EpochState, Error>)
    requires
        call_ensures(SafetyRules::epoch_state, (rules,), r),
    ensures
        r is Ok <==> rules@.epoch_state is Some,
        r is Ok ==> {
            &&& rules@.epoch_state->Some_0.epoch == r->Ok_0.epoch
            &&& rules@.epoch_state->Some_0.verifier.validators == r->Ok_0.verifier.validators@
            &&& rules@.epoch_state->Some_0.verifier.quorum_voting_power
                == r->Ok_0.verifier.quorum_voting_power
        },
        r is Err ==> (r->Err_0 matches Error::NotInitialized(text) && text@ == "epoch_state"@),
{
}

/// A message is to be signed exactly when there is a signer, by that signer, as it is.
pub proof fn a_message_is_signed_by_the_signer<'a, M>(
    rules: &'a SafetyRules,
    message: &'a M,
    r: Result<SigningRequest<'a, M>, Error>,
)
    requires
        call_ensures(SafetyRules::sign::<M>, (rules, message), r),
    ensures
        r is Ok <==> rules@.validator_signer is Some,
        r is Err ==> (r->Err_0 matches Error::NotInitialized(text) && text@ == "validator_signer"@),
        forall|signer: &'a ConfigurableValidatorSigner|
            r is Ok && #[trigger] call_ensures(SigningRequest::<'a, M>::signer, (&r->Ok_0,), signer)
                ==> rules@.validator_signer == Some(*signer),
        forall|signed: &'a M|
            r is Ok && #[trigger] call_ensures(
                SigningRequest::<'a, M>::message,
                (&r->Ok_0,),
                signed,
            ) ==> *signed == *message,
{
}

/// A certificate that is seen raises the highest certified round to the round of the
/// block that it certifies, and the preferred round to that of the block's parent,
/// each where it was lower, and changes nothing else. It teaches something exactly
/// when it raises one of them.
pub proof fn a_seen_certificate_raises_both_rounds(
    rules: &SafetyRules,
    qc: &QuorumCert,
    safety_data: &mut SafetyData,
    updated: bool,
)
    requires
        call_ensures(SafetyRules::observe_qc, (rules, qc, safety_data), updated),
    ensures
        rounds_raised(*qc, *old(safety_data), *final(safety_data)),
        updated <==> qc.certified_block.round > old(safety_data).one_chain_round
            || qc.parent_block.round > old(safety_data).preferred_round,
{
}

/// `after` is `before` with the two rounds that a certificate bears on no lower than
/// what it says, and no higher than needed.
pub open spec fn rounds_raised(qc: QuorumCert, before: SafetyData, after: SafetyData) -> bool {
    &&& after.one_chain_round >= before.one_chain_round
    &&& after.one_chain_round >= qc.certified_block.round
    &&& after.one_chain_round == before.one_chain_round || after.one_chain_round
        == qc.certified_block.round
    &&& after.preferred_round >= before.preferred_round
    &&& after.preferred_round >= qc.parent_block.round
    &&& after.preferred_round == before.preferred_round || after.preferred_round
        == qc.parent_block.round
    &&& after.epoch == before.epoch
    &&& after.last_voted_round == before.last_voted_round
    &&& after.last_vote == before.last_vote
}

/// The second voting rule lets a certificate pass exactly when the block that it
/// certifies is of no earlier round than the preferred one. A certificate that passes
/// is seen; one that does not changes nothing.
pub proof fn the_second_voting_rule_sees_what_it_lets_pass(
    rules: &SafetyRules,
    qc: &QuorumCert,
    safety_data: &mut SafetyData,
    r: Result<bool, Error>,
)
    requires
        call_ensures(
            SafetyRules::verify_and_update_preferred_round,
            (rules, qc, safety_data),
            r,
        ),
    ensures
        r is Ok <==> qc.certified_block.round >= old(safety_data).preferred_round,
        r is Ok ==> rounds_raised(*qc, *old(safety_data), *final(safety_data)),
        r is Ok ==> (r->Ok_0 <==> qc.certified_block.round > old(safety_data).one_chain_round
            || qc.parent_block.round > old(safety_data).preferred_round),
        r is Err ==> *final(safety_data) == *old(safety_data),
        r is Err ==> r->Err_0 == Error::IncorrectPreferredRound(
            qc.certified_block.round,
            old(safety_data).preferred_round,
        ),
{
}

/// A certificate that passes the second voting rule leaves the safety data, and says
/// of what it taught, just as if it had been seen without the rule.
pub proof fn passing_the_second_voting_rule_is_seeing(
    rules: &SafetyRules,
    qc: &QuorumCert,
    tried: &mut SafetyData,
    r: Result<bool, Error>,
    seen: &mut SafetyData,
    updated: bool,
)
    requires
        *old(tried) == *old(seen),
        call_ensures(SafetyRules::verify_and_update_preferred_round, (rules, qc, tried), r),
        r is Ok,
        call_ensures(SafetyRules::observe_qc, (rules, qc, seen), updated),
    ensures
        *final(tried) == *final(seen),
        r->Ok_0 == updated,
{
}

/// The author of a proposal is accepted exactly when it is named and is the account
/// that the signer signs for.
pub proof fn only_the_signers_account_may_propose(
    rules: &SafetyRules,
    author: &Option<Author>,
    r: Result<(), Error>,
)
    requires
        call_ensures(SafetyRules::verify_author, (rules, author), r),
    ensures
        r is Ok <==> {
            &&& rules@.validator_signer matches Some(signer)
            &&& *author matches Some(named)
            &&& named.address@ == account(signer).address@
        },
        rules@.validator_signer is None ==> (r matches Err(Error::NotInitialized(text)) && text@
            == "validator_signer"@),
        rules@.validator_signer is Some && *author is None ==> (r matches Err(
            Error::InvalidProposal(text),
        ) && text@ == "No author found in the proposal"@),
        rules@.validator_signer is Some && *author is Some && r is Err ==> (r matches Err(
            Error::InvalidProposal(text),
        ) && text@ == "Proposal author is not validator signer!"@),
{
}

/// An epoch is accepted exactly when it is that of the safety data.
pub proof fn only_the_current_epoch_is_accepted(
    rules: &SafetyRules,
    epoch: u64,
    safety_data: &SafetyData,
    r: Result<(), Error>,
)
    requires
        call_ensures(SafetyRules::verify_epoch, (rules, epoch, safety_data), r),
    ensures
        r is Ok <==> epoch == safety_data.epoch,
        r is Err ==> r->Err_0 == Error::IncorrectEpoch(epoch, safety_data.epoch),
{
}

/// A vote is granted exactly in a round above the last voted one, however far above.
/// A granted vote becomes the last one and changes nothing else; a refused one changes
/// nothing.
pub proof fn a_vote_is_granted_exactly_in_a_later_round(
    rules: &SafetyRules,
    round: Round,
    safety_data: &mut SafetyData,
    r: Result<(), Error>,
)
    requires
        call_ensures(
            SafetyRules::verify_and_update_last_vote_round,
            (rules, round, safety_data),
            r,
        ),
    ensures
        r is Ok <==> round > old(safety_data).last_voted_round,
        r is Ok ==> final(safety_data).last_voted_round == round,
        r is Err ==> final(safety_data).last_voted_round == old(safety_data).last_voted_round,
        r is Err ==> r->Err_0 == Error::IncorrectLastVotedRound(
            round,
            old(safety_data).last_voted_round,
        ),
        final(safety_data).epoch == old(safety_data).epoch,
        final(safety_data).preferred_round == old(safety_data).preferred_round,
        final(safety_data).one_chain_round == old(safety_data).one_chain_round,
        final(safety_data).last_vote == old(safety_data).last_vote,
{
}

/// After a granted vote, the next one is granted exactly in a round above it.
pub proof fn a_granted_vote_closes_its_round_and_no_later_one(
    rules: &SafetyRules,
    first: Round,
    before: &mut SafetyData,
    granted: Result<(), Error>,
    second: Round,
    after: &mut SafetyData,
    r: Result<(), Error>,
)
    requires
        call_ensures(
            SafetyRules::verify_and_update_last_vote_round,
            (rules, first, before),
            granted,
        ),
        granted is Ok,
        *old(after) == *final(before),
        call_ensures(
            SafetyRules::verify_and_update_last_vote_round,
            (rules, second, after),
            r,
        ),
    ensures
        r is Ok <==> second > first,
{
}

/// A certificate is valid exactly when the rules are in an epoch and its signatures
/// verify.
pub proof fn a_certificate_is_valid_exactly_when_it_verifies(
    rules: &SafetyRules,
    check: Result<(), String>,
    r: Result<(), Error>,
)
    requires
        call_ensures(SafetyRules::verify_qc, (rules, check), r),
    ensures
        r is Ok <==> rules@.epoch_state is Some && check is Ok,
        rules@.epoch_state is None ==> (r matches Err(Error::NotInitialized(text)) && text@
            == "epoch_state"@),
        rules@.epoch_state is Some && check is Err ==> (r matches Err(
            Error::InvalidQuorumCertificate(text),
        ) && text@ == check->Err_0@),
{
}

/// The remembered rounds are those of the safety data.
pub proof fn remembered_rounds_are_those_of_the_data(
    safety_data: &SafetyData,
    r: RememberedRounds,
)
    requires
        call_ensures(RememberedRounds::of, (safety_data,), r),
    ensures
        r.last_voted_round == safety_data.last_voted_round,
        r.preferred_round == safety_data.preferred_round,
        r.one_chain_round == safety_data.one_chain_round,
{
}

/// `updates` holds each of three updates exactly if it is due, once, and nothing else.
pub open spec fn tells_exactly(
    updates: Seq<RoundUpdate>,
    first: RoundUpdate,
    first_due: bool,
    second: RoundUpdate,
    second_due: bool,
    third: RoundUpdate,
    third_due: bool,
) -> bool {
    &&& updates.contains(first) <==> first_due
    &&& updates.contains(second) <==> second_due
    &&& updates.contains(third) <==> third_due
    &&& forall|update: RoundUpdate| #[trigger]
        updates.contains(update) ==> update == first || update == second || update == third
    &&& updates.no_duplicates()
}

/// An update is told exactly for each round that has risen, with what it is now, and
/// no update is told twice.
pub proof fn exactly_the_risen_rounds_are_told(
    before: RememberedRounds,
    safety_data: &SafetyData,
    r: Vec<RoundUpdate>,
)
    requires
        call_ensures(RememberedRounds::updates, (before, safety_data), r),
    ensures
        tells_exactly(
            r@,
            RoundUpdate::OneChainRound(safety_data.one_chain_round),
            safety_data.one_chain_round > before.one_chain_round,
            RoundUpdate::PreferredRound(safety_data.preferred_round),
            safety_data.preferred_round > before.preferred_round,
            RoundUpdate::LastVotedRound(safety_data.last_voted_round),
            safety_data.last_voted_round > before.last_voted_round,
        ),
{
    let one_chain = safety_data.one_chain_round > before.one_chain_round;
    let preferred = safety_data.preferred_round > before.preferred_round;
    let voted = safety_data.last_voted_round > before.last_voted_round;
    let a = if one_chain {
        seq![RoundUpdate::OneChainRound(safety_data.one_chain_round)]
    } else {
        seq![]
    };
    let b = if preferred {
        seq![RoundUpdate::PreferredRound(safety_data.preferred_round)]
    } else {
        seq![]
    };
    let c = if voted {
        seq![RoundUpdate::LastVotedRound(safety_data.last_voted_round)]
    } else {
        seq![]
    };
    assert(r@ =~= a + b + c);
    if one_chain {
        assert(r@[0] == RoundUpdate::OneChainRound(safety_data.one_chain_round));
    }
    if preferred {
        assert(r@[a.len() as int] == RoundUpdate::PreferredRound(safety_data.preferred_round));
    }
    if voted {
        assert(r@[(a + b).len() as int] == RoundUpdate::LastVotedRound(
            safety_data.last_voted_round,
        ));
    }
}

} // verus!
