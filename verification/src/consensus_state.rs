//! What a validator reports of itself.
//!
//! The request runs in steps, one for each read of storage: the waypoint, the
//! safety data and the author, then the safety data and the waypoint again. The
//! first read that fails is the refusal.

use crate::error::{viewed, Error, ErrorView};
use crate::safety_rules::{RulesView, SafetyRules};
use crate::types::{Author, ConsensusState, SafetyData, Waypoint};
use vstd::prelude::*;

verus! {

/// What storage gave when it was read.
pub struct StateReads {
    pub waypoint: Result<Waypoint, ErrorView>,
    pub safety_data: Result<SafetyData, ErrorView>,
    pub author: Result<Author, ErrorView>,
    pub safety_data_again: Result<SafetyData, ErrorView>,
    pub waypoint_again: Result<Waypoint, ErrorView>,
}

/// The reported state, given what each read gave. The first read that failed is
/// the refusal; the safety data and the waypoint are those of the second reads.
pub open spec fn reported_state(rules: RulesView, reads: StateReads) -> Result<
    ConsensusState,
    ErrorView,
> {
    if reads.waypoint is Err {
        Err(reads.waypoint->Err_0)
    } else if reads.safety_data is Err {
        Err(reads.safety_data->Err_0)
    } else if reads.author is Err {
        Err(reads.author->Err_0)
    } else if reads.safety_data_again is Err {
        Err(reads.safety_data_again->Err_0)
    } else if reads.waypoint_again is Err {
        Err(reads.waypoint_again->Err_0)
    } else {
        Ok(
            ConsensusState {
                safety_data: reads.safety_data_again->Ok_0,
                waypoint: reads.waypoint_again->Ok_0,
                in_validator_set: rules.validator_signer is Some,
            },
        )
    }
}

/// A request that waits for the safety data to be read.
#[must_use]
pub struct StateSafetyData<'a> {
    rules: &'a SafetyRules,
}

/// A request that waits to know who the validator is.
#[must_use]
pub struct StateAuthor<'a> {
    rules: &'a SafetyRules,
}

/// A request that waits for the safety data to be read again.
#[must_use]
pub struct StateSafetyDataAgain<'a> {
    rules: &'a SafetyRules,
}

/// A request that waits for the waypoint to be read again.
#[must_use]
pub struct StateWaypointAgain<'a> {
    rules: &'a SafetyRules,
    safety_data: SafetyData,
}

impl SafetyRules {
    /// Starts to report the consensus state, with the stored waypoint.
    pub fn guarded_consensus_state<'a>(&'a self, waypoint: Result<Waypoint, Error>) -> (r: Result<
        StateSafetyData<'a>,
        Error,
    >)
        ensures
            match r {
                Ok(next) => waypoint is Ok && next.spec_rules() == self@,
                Err(error) => {
                    &&& waypoint == Err::<Waypoint, _>(error)
                    &&& viewed(waypoint) == Err::<Waypoint, _>(error@)
                    &&& forall|reads: StateReads|
                        reads.waypoint == viewed(waypoint) ==> #[trigger] reported_state(
                            self@,
                            reads,
                        ) == Err::<ConsensusState, _>(error@)
                },
            },
    {
        waypoint?;
        Ok(StateSafetyData { rules: self })
    }
}

impl<'a> StateSafetyData<'a> {
    pub closed spec fn spec_rules(self) -> RulesView {
        self.rules@
    }

    /// Goes on with the stored safety data.
    pub fn safety_data(self, read: Result<SafetyData, Error>) -> (r: Result<StateAuthor<'a>, Error>)
        ensures
            match r {
                Ok(next) => read is Ok && next.spec_rules() == self.spec_rules(),
                Err(error) => {
                    &&& read == Err::<SafetyData, _>(error)
                    &&& viewed(read) == Err::<SafetyData, _>(error@)
                    &&& forall|reads: StateReads|
                        reads.waypoint is Ok && reads.safety_data == viewed(read)
                            ==> #[trigger] reported_state(self.spec_rules(), reads) == Err::<
                            ConsensusState,
                            _,
                        >(error@)
                },
            },
    {
        read?;
        Ok(StateAuthor { rules: self.rules })
    }
}

impl<'a> StateAuthor<'a> {
    pub closed spec fn spec_rules(self) -> RulesView {
        self.rules@
    }

    /// Goes on with who the validator is.
    pub fn author(self, read: Result<Author, Error>) -> (r: Result<StateSafetyDataAgain<'a>, Error>)
        ensures
            match r {
                Ok(next) => read is Ok && next.spec_rules() == self.spec_rules(),
                Err(error) => {
                    &&& read == Err::<Author, _>(error)
                    &&& viewed(read) == Err::<Author, _>(error@)
                    &&& forall|reads: StateReads|
                        reads.waypoint is Ok && reads.safety_data is Ok && reads.author == viewed(
                            read,
                        ) ==> #[trigger] reported_state(self.spec_rules(), reads) == Err::<
                            ConsensusState,
                            _,
                        >(error@)
                },
            },
    {
        read?;
        Ok(StateSafetyDataAgain { rules: self.rules })
    }
}

impl<'a> StateSafetyDataAgain<'a> {
    pub closed spec fn spec_rules(self) -> RulesView {
        self.rules@
    }

    /// Goes on with the safety data to report.
    pub fn safety_data(self, read: Result<SafetyData, Error>) -> (r: Result<
        StateWaypointAgain<'a>,
        Error,
    >)
        ensures
            match r {
                Ok(next) => {
                    &&& read == Ok::<_, Error>(next.spec_safety_data())
                    &&& viewed(read) == Ok::<_, ErrorView>(next.spec_safety_data())
                    &&& next.spec_rules() == self.spec_rules()
                },
                Err(error) => {
                    &&& read == Err::<SafetyData, _>(error)
                    &&& viewed(read) == Err::<SafetyData, _>(error@)
                    &&& forall|reads: StateReads|
                        {
                            &&& reads.waypoint is Ok
                            &&& reads.safety_data is Ok
                            &&& reads.author is Ok
                            &&& reads.safety_data_again == viewed(read)
                        } ==> #[trigger] reported_state(self.spec_rules(), reads) == Err::<
                            ConsensusState,
                            _,
                        >(error@)
                },
            },
    {
        let safety_data = read?;
        Ok(StateWaypointAgain { rules: self.rules, safety_data })
    }
}

impl<'a> StateWaypointAgain<'a> {
    pub closed spec fn spec_rules(self) -> RulesView {
        self.rules@
    }

    pub closed spec fn spec_safety_data(self) -> SafetyData {
        self.safety_data
    }

    /// Ends with the waypoint to report.
    pub fn waypoint(self, read: Result<Waypoint, Error>) -> (r: Result<ConsensusState, Error>)
        ensures
            match read {
                Ok(waypoint) => r == Ok::<_, Error>(
                    ConsensusState {
                        safety_data: self.spec_safety_data(),
                        waypoint,
                        in_validator_set: self.spec_rules().validator_signer is Some,
                    },
                ),
                Err(error) => r == Err::<ConsensusState, _>(error),
            },
            viewed(r) == (match viewed(read) {
                Ok(waypoint) => Ok(
                    ConsensusState {
                        safety_data: self.spec_safety_data(),
                        waypoint,
                        in_validator_set: self.spec_rules().validator_signer is Some,
                    },
                ),
                Err(error) => Err(error),
            }),
            forall|reads: StateReads|
                {
                    &&& reads.waypoint is Ok
                    &&& reads.safety_data is Ok
                    &&& reads.author is Ok
                    &&& reads.safety_data_again == Ok::<_, ErrorView>(self.spec_safety_data())
                    &&& reads.waypoint_again == viewed(read)
                } ==> #[trigger] reported_state(self.spec_rules(), reads) == viewed(r),
    {
        let waypoint = read?;
        Ok(ConsensusState::new(self.safety_data, waypoint, self.rules.signer().is_ok()))
    }
}

} // verus!
