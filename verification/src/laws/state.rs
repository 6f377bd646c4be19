//! What a run of the request for the consensus state comes to, in terms of the rules
//! and of what was read.

use crate::consensus_state::{
    StateAuthor, StateSafetyData, StateSafetyDataAgain, StateWaypointAgain,
};
use crate::error::Error;
use crate::safety_rules::SafetyRules;
use crate::types::{Author, ConsensusState, SafetyData, Waypoint};
use vstd::prelude::*;

verus! {

/// The request goes on exactly as long as the reads succeed, and is refused with the
/// failure of the first one that does not.
pub proof fn the_state_is_refused_exactly_on_a_failed_read<'a>(
    rules: &'a SafetyRules,
    waypoint: Result<Waypoint, Error>,
    after_waypoint: Result<StateSafetyData<'a>, Error>,
    at_safety_data: StateSafetyData<'a>,
    safety_data: Result<SafetyData, Error>,
    after_safety_data: Result<StateAuthor<'a>, Error>,
    at_author: StateAuthor<'a>,
    author: Result<Author, Error>,
    after_author: Result<StateSafetyDataAgain<'a>, Error>,
    at_safety_data_again: StateSafetyDataAgain<'a>,
    safety_data_again: Result<SafetyData, Error>,
    after_safety_data_again: Result<StateWaypointAgain<'a>, Error>,
    at_waypoint_again: StateWaypointAgain<'a>,
    waypoint_again: Result<Waypoint, Error>,
    r: Result<ConsensusState, Error>,
)
    requires
        call_ensures(SafetyRules::guarded_consensus_state, (rules, waypoint), after_waypoint),
        call_ensures(
            StateSafetyData::safety_data,
            (at_safety_data, safety_data),
            after_safety_data,
        ),
        call_ensures(StateAuthor::author, (at_author, author), after_author),
        call_ensures(
            StateSafetyDataAgain::safety_data,
            (at_safety_data_again, safety_data_again),
            after_safety_data_again,
        ),
        call_ensures(StateWaypointAgain::waypoint, (at_waypoint_again, waypoint_again), r),
    ensures
        after_waypoint is Ok <==> waypoint is Ok,
        waypoint is Err ==> after_waypoint->Err_0 == waypoint->Err_0,
        after_safety_data is Ok <==> safety_data is Ok,
        safety_data is Err ==> after_safety_data->Err_0 == safety_data->Err_0,
        after_author is Ok <==> author is Ok,
        author is Err ==> after_author->Err_0 == author->Err_0,
        after_safety_data_again is Ok <==> safety_data_again is Ok,
        safety_data_again is Err ==> after_safety_data_again->Err_0 == safety_data_again->Err_0,
        r is Ok <==> waypoint_again is Ok,
        waypoint_again is Err ==> r->Err_0 == waypoint_again->Err_0,
{
}

/// The state that is reported is made of the second reads, and of whether the rules hold
/// a signer.
pub proof fn the_state_is_that_of_the_second_reads_and_the_signer<'a>(
    rules: &'a SafetyRules,
    waypoint: Result<Waypoint, Error>,
    at_safety_data: StateSafetyData<'a>,
    safety_data: Result<SafetyData, Error>,
    at_author: StateAuthor<'a>,
    author: Result<Author, Error>,
    at_safety_data_again: StateSafetyDataAgain<'a>,
    safety_data_again: Result<SafetyData, Error>,
    at_waypoint_again: StateWaypointAgain<'a>,
    waypoint_again: Result<Waypoint, Error>,
    state: ConsensusState,
)
    requires
        call_ensures(SafetyRules::guarded_consensus_state, (rules, waypoint), Ok(at_safety_data)),
        call_ensures(StateSafetyData::safety_data, (at_safety_data, safety_data), Ok(at_author)),
        call_ensures(StateAuthor::author, (at_author, author), Ok(at_safety_data_again)),
        call_ensures(
            StateSafetyDataAgain::safety_data,
            (at_safety_data_again, safety_data_again),
            Ok(at_waypoint_again),
        ),
        call_ensures(StateWaypointAgain::waypoint, (at_waypoint_again, waypoint_again), Ok(state)),
    ensures
        safety_data_again == Ok::<_, Error>(state.safety_data),
        waypoint_again == Ok::<_, Error>(state.waypoint),
        state.in_validator_set <==> rules@.validator_signer is Some,
{
}

} // verus!
