//! What holds of the rules as a whole.
//!
//! The laws here are about decisions and about histories of them. Those of the modules
//! below are about calls: what a call, or a run of calls from the first step of a request
//! to its last, gives, in terms of what goes into it.

use crate::consensus_state::{reported_state, StateReads};
use crate::error::{Error, ErrorView};
use crate::initialize::{
    fresh, initialize_outcome, proof_check, InitializeOutcome, InitializeReplies,
};
use crate::queries::{logged, requested, LogEntry, LogEvent, LogRecord};
use crate::rounds::{round_updates, rounds_of, RoundUpdate};
use crate::safety_rules::{observed, preferred, voted, RulesView};
use crate::sign_commit_vote::sign_commit_vote_decision;
use crate::sign_proposal::{proposal_data_check, sign_proposal_decision};
use crate::types::{
    public_key_of, BlockData, LedgerInfo, MaybeSignedVoteProposal, QuorumCert, Round, SafetyData,
    Waypoint,
};
use crate::verify_proposal::{verify_proposal_decision, ProposalReplies};
use vstd::prelude::*;

pub mod commit_vote;
pub mod initialize;
pub mod proposal;
pub mod queries;
pub mod shared;
pub mod state;
pub mod values;
pub mod vote;

verus! {

/// The safety data after votes were asked for in `rounds`, one after the other.
pub open spec fn after_votes(safety_data: SafetyData, rounds: Seq<Round>) -> SafetyData
    decreases rounds.len(),
{
    if rounds.len() == 0 {
        safety_data
    } else {
        let before = after_votes(safety_data, rounds.drop_last());
        match voted(rounds.last(), before) {
            Ok(safety_data) => safety_data,
            Err(_) => before,
        }
    }
}

/// Whether the vote that was asked for `i`-th was granted.
pub open spec fn granted(safety_data: SafetyData, rounds: Seq<Round>, i: int) -> bool {
    voted(rounds[i], after_votes(safety_data, rounds.take(i))) is Ok
}

/// Whatever votes are asked for, and in whatever order, the rounds of those that
/// are granted rise strictly: no two votes are ever of one round.
pub proof fn granted_votes_rise(safety_data: SafetyData, rounds: Seq<Round>, i: int, j: int)
    requires
        0 <= i < j < rounds.len(),
        granted(safety_data, rounds, i),
        granted(safety_data, rounds, j),
    ensures
        rounds[i] < rounds[j],
{
    granted_vote_counts(safety_data, rounds, i, j);
}

/// Once a vote is granted, the last voted round is never below its round.
pub proof fn granted_vote_counts(safety_data: SafetyData, rounds: Seq<Round>, i: int, j: int)
    requires
        0 <= i < j <= rounds.len(),
        granted(safety_data, rounds, i),
    ensures
        after_votes(safety_data, rounds.take(j)).last_voted_round >= rounds[i],
    decreases j,
{
    assert(rounds.take(j).drop_last() =~= rounds.take(j - 1));
    if j > i + 1 {
        granted_vote_counts(safety_data, rounds, i, j - 1);
    }
}

/// Votes leave everything but the last voted round as it was, and never lower
/// that.
pub proof fn votes_only_raise_the_last_round(safety_data: SafetyData, rounds: Seq<Round>)
    ensures
        after_votes(safety_data, rounds) == (SafetyData {
            last_voted_round: after_votes(safety_data, rounds).last_voted_round,
            ..safety_data
        }),
        after_votes(safety_data, rounds).last_voted_round >= safety_data.last_voted_round,
    decreases rounds.len(),
{
    if rounds.len() > 0 {
        votes_only_raise_the_last_round(safety_data, rounds.drop_last());
    }
}

/// A validator: its rules, and what its storage holds.
pub struct Validator {
    pub rules: RulesView,
    pub waypoint: Waypoint,
    pub safety_data: SafetyData,
}

/// Something that happens to a validator.
pub enum Event {
    /// A vote is asked for, and recorded if it is granted.
    Vote(Round),
    /// A certificate is seen.
    Observe(QuorumCert),
    /// A certificate is seen, if the second voting rule allows it.
    Prefer(QuorumCert),
    /// A request to initialize, with what the outside has to say to it.
    Initialize(InitializeReplies),
    /// Any other request: it reads the rules and the storage, and changes neither.
    Read,
}

/// What the outside has to say to a request to initialize, where a read of storage
/// that does not fail gives what the storage holds.
pub open spec fn truthful(validator: Validator, replies: InitializeReplies) -> InitializeReplies {
    InitializeReplies {
        waypoint: match replies.waypoint {
            Ok(_) => Ok(validator.waypoint),
            Err(error) => Err(error),
        },
        safety_data: match replies.safety_data {
            Ok(_) => Ok(validator.safety_data),
            Err(error) => Err(error),
        },
        ..replies
    }
}

/// A validator after an event. A store that fails leaves what was there.
pub open spec fn after_event(validator: Validator, event: Event) -> Validator {
    match event {
        Event::Vote(round) => match voted(round, validator.safety_data) {
            Ok(safety_data) => Validator { safety_data, ..validator },
            Err(_) => validator,
        },
        Event::Observe(qc) => Validator {
            safety_data: observed(qc, validator.safety_data),
            ..validator
        },
        Event::Prefer(qc) => match preferred(qc, validator.safety_data) {
            Ok(safety_data) => Validator { safety_data, ..validator },
            Err(_) => validator,
        },
        Event::Initialize(replies) => {
            let outcome = initialize_outcome(validator.rules, truthful(validator, replies));
            Validator {
                rules: outcome.rules,
                waypoint: if outcome.waypoint is Some && replies.waypoint_stored is Ok {
                    outcome.waypoint->Some_0
                } else {
                    validator.waypoint
                },
                safety_data: if outcome.safety_data is Some && replies.safety_data_stored is Ok {
                    outcome.safety_data->Some_0
                } else {
                    validator.safety_data
                },
            }
        },
        Event::Read => validator,
    }
}

/// A validator after a history of events.
pub open spec fn after_events(validator: Validator, history: Seq<Event>) -> Validator
    decreases history.len(),
{
    if history.len() == 0 {
        validator
    } else {
        after_event(after_events(validator, history.drop_last()), history.last())
    }
}

/// Whether the `i`-th event of a history is a vote that is granted.
pub open spec fn vote_granted(validator: Validator, history: Seq<Event>, i: int) -> bool {
    &&& history[i] matches Event::Vote(round)
    &&& voted(round, after_events(validator, history.take(i)).safety_data) is Ok
}

/// The epoch of the safety data at the `i`-th event of a history.
pub open spec fn epoch_at(validator: Validator, history: Seq<Event>, i: int) -> u64 {
    after_events(validator, history.take(i)).safety_data.epoch
}

/// Whatever else happens to a validator in between, of two votes that are granted
/// the later one is of a later epoch, or of a later round of the same epoch: no two
/// votes are of one round of an epoch.
pub proof fn granted_votes_rise_through_any_history(
    validator: Validator,
    history: Seq<Event>,
    i: int,
    j: int,
)
    requires
        0 <= i < j < history.len(),
        vote_granted(validator, history, i),
        vote_granted(validator, history, j),
    ensures
        epoch_at(validator, history, i) <= epoch_at(validator, history, j),
        epoch_at(validator, history, i) == epoch_at(validator, history, j) ==> history[i]->Vote_0
            < history[j]->Vote_0,
{
    granted_vote_lasts(validator, history, i, j);
}

/// Once a vote is granted, the last voted round is not below its round for as long
/// as the epoch lasts.
pub proof fn granted_vote_lasts(validator: Validator, history: Seq<Event>, i: int, j: int)
    requires
        0 <= i < j <= history.len(),
        vote_granted(validator, history, i),
    ensures
        epoch_at(validator, history, i) <= epoch_at(validator, history, j),
        epoch_at(validator, history, i) == epoch_at(validator, history, j) ==> after_events(
            validator,
            history.take(j),
        ).safety_data.last_voted_round >= history[i]->Vote_0,
    decreases j,
{
    assert(history.take(j).drop_last() =~= history.take(j - 1));
    if j > i + 1 {
        granted_vote_lasts(validator, history, i, j - 1);
        event_only_moves_forward(
            after_events(validator, history.take(j - 1)),
            history[j - 1],
        );
    }
}

/// No event takes the waypoint or the epoch back, nor, within an epoch, any of the
/// rounds that are remembered.
pub proof fn event_only_moves_forward(validator: Validator, event: Event)
    ensures
        ({
            let later = after_event(validator, event);
            let before = validator.safety_data;
            let after = later.safety_data;
            &&& later.waypoint.version >= validator.waypoint.version
            &&& after.epoch >= before.epoch
            &&& after.epoch == before.epoch ==> {
                &&& after.last_voted_round >= before.last_voted_round
                &&& after.preferred_round >= before.preferred_round
                &&& after.one_chain_round >= before.one_chain_round
            }
        }),
{
}

/// Whatever happens to a validator, its rules hold a signer only in an epoch, lose
/// no epoch that they were in, and keep the configuration that they were made with.
/// Rules that were just made hold neither a signer nor an epoch.
pub proof fn rules_stay_sound(validator: Validator, history: Seq<Event>, i: int, j: int)
    requires
        0 <= i <= j <= history.len(),
        validator.rules.validator_signer is Some ==> validator.rules.epoch_state is Some,
    ensures
        ({
            let earlier = after_events(validator, history.take(i)).rules;
            let later = after_events(validator, history.take(j)).rules;
            &&& later.validator_signer is Some ==> later.epoch_state is Some
            &&& earlier.epoch_state is Some ==> later.epoch_state is Some
            &&& later.execution_public_key == validator.rules.execution_public_key
            &&& later.export_consensus_key == validator.rules.export_consensus_key
        }),
    decreases j,
{
    if j > 0 {
        assert(history.take(j).drop_last() =~= history.take(j - 1));
        if i < j {
            rules_stay_sound(validator, history, i, j - 1);
        } else {
            rules_stay_sound(validator, history, i - 1, j - 1);
        }
    }
}

/// A validator that has voted in a round signs no proposal of its own for that
/// round or an earlier one.
pub proof fn no_proposal_in_a_voted_round(
    rules: RulesView,
    block: BlockData,
    round: Round,
    safety_data: SafetyData,
    check: Result<(), Seq<char>>,
)
    requires
        voted(round, safety_data) is Ok,
        block.round <= round,
    ensures
        sign_proposal_decision(rules, block, Ok(voted(round, safety_data)->Ok_0), check) is Err,
{
}

/// Seeing a certificate never lowers what is remembered.
pub proof fn observing_only_raises(qc: QuorumCert, safety_data: SafetyData)
    ensures
        observed(qc, safety_data).one_chain_round >= safety_data.one_chain_round,
        observed(qc, safety_data).preferred_round >= safety_data.preferred_round,
        observed(qc, safety_data).one_chain_round >= qc.certified_block.round,
        observed(qc, safety_data).preferred_round >= qc.parent_block.round,
{
}

/// Seeing a certificate again teaches nothing.
pub proof fn observing_again_changes_nothing(qc: QuorumCert, safety_data: SafetyData)
    ensures
        observed(qc, observed(qc, safety_data)) == observed(qc, safety_data),
{
}

/// The order in which certificates are seen does not matter.
pub proof fn observing_in_any_order(a: QuorumCert, b: QuorumCert, safety_data: SafetyData)
    ensures
        observed(a, observed(b, safety_data)) == observed(b, observed(a, safety_data)),
{
}

/// Once a certificate is seen, none passes the second voting rule that certifies
/// an earlier round than that of the certified block's parent.
pub proof fn seen_certificates_bind(a: QuorumCert, b: QuorumCert, safety_data: SafetyData)
    requires
        preferred(b, observed(a, safety_data)) is Ok,
    ensures
        b.certified_block.round >= a.parent_block.round,
{
}

/// A certificate raises the certified round exactly when it certifies a later one,
/// and the preferred round exactly when the parent is of a later one, each to the
/// certificate's. It raises no other round.
pub proof fn a_certificate_raises_what_it_is_ahead_of(qc: QuorumCert, safety_data: SafetyData)
    ensures
        round_updates(rounds_of(safety_data), rounds_of(observed(qc, safety_data))) == (
        if qc.certified_block.round > safety_data.one_chain_round {
            seq![RoundUpdate::OneChainRound(qc.certified_block.round)]
        } else {
            seq![]
        }) + (if qc.parent_block.round > safety_data.preferred_round {
            seq![RoundUpdate::PreferredRound(qc.parent_block.round)]
        } else {
            seq![]
        }),
{
}

/// A granted vote raises the last voted round to its own, and no other round.
pub proof fn a_granted_vote_raises_the_last_voted_round(round: Round, safety_data: SafetyData)
    requires
        voted(round, safety_data) is Ok,
    ensures
        round_updates(rounds_of(safety_data), rounds_of(voted(round, safety_data)->Ok_0)) == seq![
            RoundUpdate::LastVotedRound(round),
        ],
{
}

/// A proposal is signed exactly when it is by the validator that signs, of the
/// current epoch, of a later round than the last vote, and carries a valid
/// certificate that is no older than the preferred round.
pub proof fn proposals_are_signed_exactly_when_allowed(
    rules: RulesView,
    block: BlockData,
    safety_data: SafetyData,
    check: Result<(), Seq<char>>,
)
    ensures
        sign_proposal_decision(rules, block, Ok(safety_data), check) is Ok <==> {
            &&& rules.validator_signer matches Some(signer)
            &&& block.author matches Some(author)
            &&& author.address@ == signer.spec_author().address@
            &&& block.epoch == safety_data.epoch
            &&& block.round > safety_data.last_voted_round
            &&& rules.epoch_state is Some
            &&& check is Ok
            &&& block.quorum_cert.certified_block.round >= safety_data.preferred_round
        },
{
}

/// A commit vote is signed exactly when there is a signer, the ordered block is
/// not yet executed, the executed one matches it, and a quorum signed the order.
pub proof fn commit_votes_are_signed_exactly_when_allowed(
    rules: RulesView,
    ordered: LedgerInfo,
    executed: LedgerInfo,
    consistent: bool,
    check: Result<(), Seq<char>>,
)
    ensures
        sign_commit_vote_decision(rules, ordered, executed, consistent, check) is Ok <==> {
            &&& rules.validator_signer is Some
            &&& ordered.commit_info.ordered_only
            &&& consistent
            &&& rules.epoch_state is Some
            &&& check is Ok
        },
{
}

/// A proposal may be voted for exactly when the execution signed it, where that
/// is asked for, it is of the current epoch, its certificate, its author's
/// signature and its form are valid, and it extends its parent.
pub proof fn proposals_are_voted_for_exactly_when_valid(
    rules: RulesView,
    proposal: MaybeSignedVoteProposal,
    replies: ProposalReplies,
)
    ensures
        verify_proposal_decision(rules, proposal, replies) is Ok <==> {
            &&& rules.execution_public_key is Some ==> proposal.signature is Some
                && replies.execution_signature is Ok
            &&& replies.safety_data matches Ok(safety_data)
            &&& proposal.vote_proposal.block.epoch == safety_data.epoch
            &&& rules.epoch_state is Some
            &&& replies.quorum_cert is Ok
            &&& replies.block_signature is Ok
            &&& replies.well_formed is Ok
            &&& replies.vote_data is Ok
        },
{
}

/// Rules that were never initialized sign nothing and let nothing be voted for.
pub proof fn uninitialized_rules_refuse(
    rules: RulesView,
    block: BlockData,
    safety_data: Result<SafetyData, ErrorView>,
    check: Result<(), Seq<char>>,
    ordered: LedgerInfo,
    executed: LedgerInfo,
    consistent: bool,
    proposal: MaybeSignedVoteProposal,
    replies: ProposalReplies,
)
    requires
        rules.validator_signer is None,
        rules.epoch_state is None,
    ensures
        sign_proposal_decision(rules, block, safety_data, check) == Err::<(), _>(
            ErrorView::NotInitialized("validator_signer"@),
        ),
        sign_commit_vote_decision(rules, ordered, executed, consistent, check) == Err::<(), _>(
            ErrorView::NotInitialized("validator_signer"@),
        ),
        verify_proposal_decision(rules, proposal, replies) is Err,
{
}

/// Whether a request to initialize gets as far as to take over the epoch that the
/// proof leads to.
pub open spec fn takes_over_epoch(replies: InitializeReplies) -> bool {
    &&& replies.waypoint matches Ok(waypoint)
    &&& proof_check(replies.ledger_info) matches Ok(epoch_state)
    &&& replies.boundary matches Ok(new_waypoint)
    &&& new_waypoint.version > waypoint.version ==> replies.waypoint_stored is Ok
    &&& replies.safety_data matches Ok(safety_data)
    &&& safety_data.epoch <= epoch_state.epoch
    &&& safety_data.epoch < epoch_state.epoch ==> replies.safety_data_stored is Ok
}

/// A request to initialize succeeds exactly when the epoch is taken over, it lists
/// the validator, and the validator has its key: it holds it already, or exports
/// it, or storage signs with it.
pub proof fn initialization_succeeds_exactly_with_the_key(
    rules: RulesView,
    replies: InitializeReplies,
)
    ensures
        initialize_outcome(rules, replies).result is Ok <==> {
            &&& takes_over_epoch(replies)
            &&& replies.author matches Ok(author)
            &&& public_key_of(
                proof_check(replies.ledger_info)->Ok_0.verifier.validators,
                author.address@,
            ) matches Some(expected)
            &&& {
                ||| rules.validator_signer matches Some(signer) && signer.spec_public_key()
                    == expected
                ||| rules.export_consensus_key && replies.exported is Ok
                ||| !rules.export_consensus_key && replies.tested is Ok
            }
        },
{
}

/// Within an epoch, a request to initialize never replaces the safety data: no
/// restart makes a validator forget a vote.
pub proof fn no_vote_is_forgotten_within_an_epoch(rules: RulesView, replies: InitializeReplies)
    requires
        replies.safety_data matches Ok(safety_data) && proof_check(replies.ledger_info) matches Ok(
            epoch_state,
        ) && epoch_state.epoch == safety_data.epoch,
    ensures
        initialize_outcome(rules, replies).safety_data is None,
{
}

/// A waypoint is stored only if it is newer than the stored one.
pub proof fn waypoints_only_move_forward(rules: RulesView, replies: InitializeReplies)
    requires
        initialize_outcome(rules, replies).waypoint is Some,
    ensures
        replies.waypoint matches Ok(waypoint) && replies.boundary matches Ok(new_waypoint)
            && initialize_outcome(rules, replies).waypoint == Some(new_waypoint)
            && new_waypoint.version > waypoint.version,
{
}

/// Safety data is only ever replaced by the fresh start of a later epoch.
pub proof fn epochs_only_move_forward(rules: RulesView, replies: InitializeReplies)
    requires
        initialize_outcome(rules, replies).safety_data is Some,
    ensures
        replies.safety_data matches Ok(safety_data) && proof_check(replies.ledger_info) matches Ok(
            epoch_state,
        ) && initialize_outcome(rules, replies).safety_data == Some(fresh(epoch_state.epoch))
            && epoch_state.epoch > safety_data.epoch,
{
}

/// In an epoch that just started, the safety data allows proposals of that epoch
/// and no other, in every round but the first, on any certificate.
pub proof fn a_fresh_epoch_is_open(epoch: u64, block: BlockData)
    ensures
        proposal_data_check(block, fresh(epoch)) is Ok <==> block.epoch == epoch && block.round > 0,
        preferred(block.quorum_cert, fresh(epoch)) is Ok,
{
}

/// Initialized rules are in the epoch that the proof leads to, which is not behind
/// the stored one, and have a signer. Its key is the one that the epoch lists,
/// unless an export gave another.
pub proof fn initialized_rules_are_ready(rules: RulesView, replies: InitializeReplies)
    requires
        initialize_outcome(rules, replies).result is Ok,
    ensures
        ({
            let rules_after = initialize_outcome(rules, replies).rules;
            &&& rules_after.validator_signer matches Some(signer)
            &&& proof_check(replies.ledger_info) matches Ok(epoch_state)
            &&& rules_after.epoch_state == Some(epoch_state)
            &&& replies.safety_data matches Ok(safety_data)
            &&& safety_data.epoch <= epoch_state.epoch
            &&& replies.author matches Ok(author)
            &&& public_key_of(epoch_state.verifier.validators, author.address@) matches Some(
                expected,
            )
            &&& {
                ||| signer.spec_public_key() == expected
                ||| rules.export_consensus_key && replies.exported is Ok && signer.spec_public_key()
                    == replies.exported->Ok_0.public_key
            }
        }),
{
}

/// A refused request to initialize leaves the rules as they were if it was refused
/// before the epoch was taken over. After that they are in the epoch that the
/// proof leads to: with the signer they had if it is not known who the validator
/// is, and otherwise with none.
pub proof fn refused_initialization_keeps_or_drops_the_signer(
    rules: RulesView,
    replies: InitializeReplies,
)
    requires
        initialize_outcome(rules, replies).result is Err,
    ensures
        !takes_over_epoch(replies) ==> initialize_outcome(rules, replies).rules == rules,
        takes_over_epoch(replies) ==> initialize_outcome(rules, replies).rules == (RulesView {
            epoch_state: Some(proof_check(replies.ledger_info)->Ok_0),
            validator_signer: if replies.author is Err {
                rules.validator_signer
            } else {
                None
            },
            ..rules
        }),
{
}

/// Whatever comes of it, a request to initialize leaves the execution key and the
/// export policy alone.
pub proof fn initialization_keeps_the_configuration(rules: RulesView, replies: InitializeReplies)
    ensures
        initialize_outcome(rules, replies).rules.execution_public_key == rules.execution_public_key,
        initialize_outcome(rules, replies).rules.export_consensus_key == rules.export_consensus_key,
{
}

/// To initialize again with the same proof changes nothing and stores nothing,
/// where storage has not gone back behind what the first request left: its waypoint
/// is no older than the proof's, and its safety data, whatever votes it has taken
/// since, is of the proof's epoch. The signer holds the key that the epoch lists, or
/// else the same key is exported again.
pub proof fn initializing_again_changes_nothing(
    rules: RulesView,
    first: InitializeReplies,
    second: InitializeReplies,
)
    requires
        initialize_outcome(rules, first).result is Ok,
        second.ledger_info == first.ledger_info,
        second.boundary == first.boundary,
        second.author == first.author,
        second.waypoint matches Ok(waypoint) && waypoint.version >= first.boundary->Ok_0.version,
        second.safety_data matches Ok(safety_data) && safety_data.epoch == proof_check(
            first.ledger_info,
        )->Ok_0.epoch,
        public_key_of(
            proof_check(first.ledger_info)->Ok_0.verifier.validators,
            first.author->Ok_0.address@,
        ) == Some(
            initialize_outcome(rules, first).rules.validator_signer->Some_0.spec_public_key(),
        ) || second.exported == first.exported,
    ensures
        initialize_outcome(initialize_outcome(rules, first).rules, second) == (InitializeOutcome {
            result: Ok(()),
            rules: initialize_outcome(rules, first).rules,
            waypoint: None,
            safety_data: None,
        }),
{
}

/// After a request to initialize that succeeded, the stored waypoint is no older
/// than the proof's, and the stored safety data is of the proof's epoch.
pub proof fn initialization_brings_storage_up_to_the_proof(
    validator: Validator,
    replies: InitializeReplies,
)
    requires
        initialize_outcome(validator.rules, truthful(validator, replies)).result is Ok,
    ensures
        ({
            let later = after_event(validator, Event::Initialize(replies));
            &&& later.waypoint.version >= replies.boundary->Ok_0.version
            &&& later.safety_data.epoch == proof_check(replies.ledger_info)->Ok_0.epoch
        }),
{
}

/// Once a request to initialize has got as far as to who the validator is, the
/// validator reports to be in the validator set exactly if the request succeeded.
pub proof fn the_report_tells_whether_there_is_a_key(
    rules: RulesView,
    replies: InitializeReplies,
    reads: StateReads,
)
    requires
        takes_over_epoch(replies),
        replies.author is Ok,
    ensures
        ({
            let outcome = initialize_outcome(rules, replies);
            reported_state(outcome.rules, reads) matches Ok(state) ==> (state.in_validator_set
                <==> outcome.result is Ok)
        }),
{
}

/// How often a log says that a query of `entry` came to `event`.
pub open spec fn count(log: Seq<LogRecord>, entry: LogEntry, event: LogEvent) -> nat
    decreases log.len(),
{
    if log.len() == 0 {
        0
    } else {
        count(log.drop_last(), entry, event) + if log.last().entry == entry && log.last().event
            == event {
            1nat
        } else {
            0nat
        }
    }
}

/// When a query runs, one more request of its entry is counted than before, and
/// nothing else is.
pub proof fn a_query_is_counted_before_it_runs(
    log: Seq<LogRecord>,
    entry: LogEntry,
    round: Option<Round>,
    counted_entry: LogEntry,
    counted_event: LogEvent,
)
    ensures
        count(requested(log, entry, round), counted_entry, counted_event) == count(
            log,
            counted_entry,
            counted_event,
        ) + if counted_entry == entry && counted_event == LogEvent::Request {
            1nat
        } else {
            0nat
        },
{
    assert(requested(log, entry, round).drop_last() =~= log);
}

/// When a query is answered, one more success of its entry is counted than when it
/// ran, or one more error if it was refused, and nothing else is.
pub proof fn an_answer_is_counted_after_the_query_ran<R>(
    log: Seq<LogRecord>,
    entry: LogEntry,
    round: Option<Round>,
    answer: Result<R, Error>,
    counted_entry: LogEntry,
    counted_event: LogEvent,
)
    ensures
        count(logged(log, entry, round, answer), counted_entry, counted_event) == count(
            requested(log, entry, round),
            counted_entry,
            counted_event,
        ) + if counted_entry == entry && counted_event == (if answer is Ok {
            LogEvent::Success
        } else {
            LogEvent::Error
        }) {
            1nat
        } else {
            0nat
        },
{
    assert(logged(log, entry, round, answer).drop_last() =~= requested(log, entry, round));
}

/// Every query of `entry` in the log has been answered, with success or with an
/// error.
pub open spec fn balanced(log: Seq<LogRecord>, entry: LogEntry) -> bool {
    count(log, entry, LogEvent::Request) == count(log, entry, LogEvent::Success) + count(
        log,
        entry,
        LogEvent::Error,
    )
}

/// Queries are logged and counted exhaustively: of every entry there are as many
/// requests as answers, but for the query that is running.
pub proof fn every_request_is_answered<R>(
    log: Seq<LogRecord>,
    entry: LogEntry,
    round: Option<Round>,
    answer: Result<R, Error>,
    counted: LogEntry,
)
    requires
        balanced(log, counted),
    ensures
        balanced(requested(log, entry, round), counted) <==> counted != entry,
        balanced(logged(log, entry, round, answer), counted),
{
    a_query_is_counted_before_it_runs(log, entry, round, counted, LogEvent::Request);
    a_query_is_counted_before_it_runs(log, entry, round, counted, LogEvent::Success);
    a_query_is_counted_before_it_runs(log, entry, round, counted, LogEvent::Error);
    an_answer_is_counted_after_the_query_ran(
        log,
        entry,
        round,
        answer,
        counted,
        LogEvent::Request,
    );
    an_answer_is_counted_after_the_query_ran(
        log,
        entry,
        round,
        answer,
        counted,
        LogEvent::Success,
    );
    an_answer_is_counted_after_the_query_ran(log, entry, round, answer, counted, LogEvent::Error);
}

} // verus!
