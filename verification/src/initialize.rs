//! Bringing the rules to the epoch that an epoch change proof leads to.
//!
//! The request runs in steps. The waypoint is read and the proof is checked
//! against it; a newer waypoint and a fresh start in a later epoch are stored;
//! then the rules take over the epoch, and find the validator's key for it. Each
//! step takes what the outside had to say, and refuses or hands over to the next.

use crate::error::{told, viewed, Error, ErrorView};
use crate::safety_rules::{RulesView, SafetyRules};
use crate::signer::{ConfigurableValidatorSigner, ConsensusKey, SigningRequest};
use crate::types::{
    public_key_of, Author, EpochState, EpochStateView, LedgerInfo, PublicKey, SafetyData, Signature,
    Waypoint,
};
use vstd::prelude::*;

verus! {

/// The epoch that a proof leads to.
pub open spec fn proof_check(ledger_info: Result<LedgerInfo, Seq<char>>) -> Result<
    EpochStateView,
    ErrorView,
> {
    match ledger_info {
        Err(text) => Err(ErrorView::InvalidEpochChangeProof(text)),
        Ok(ledger_info) => match ledger_info.next_epoch_state {
            None => Err(ErrorView::InvalidLedgerInfo),
            Some(epoch_state) => Ok(epoch_state@),
        },
    }
}

/// The waypoint at the start of the epoch that a proof leads to.
pub open spec fn boundary_check(built: Result<Waypoint, Seq<char>>) -> Result<
    Waypoint,
    ErrorView,
> {
    match built {
        Ok(waypoint) => Ok(waypoint),
        Err(text) => Err(ErrorView::InternalError(text)),
    }
}

/// The waypoint to store: the new one, if it is newer.
pub open spec fn newer(waypoint: Waypoint, new_waypoint: Waypoint) -> Option<Waypoint> {
    if new_waypoint.version > waypoint.version {
        Some(new_waypoint)
    } else {
        None
    }
}

/// The safety data that an epoch starts with.
pub open spec fn fresh(epoch: u64) -> SafetyData {
    SafetyData {
        epoch,
        last_voted_round: 0,
        preferred_round: 0,
        one_chain_round: 0,
        last_vote: None,
    }
}

/// The safety data to store: a fresh start if the proof leads to a later epoch
/// than the current one. It may not lead to an earlier one.
pub open spec fn epoch_decision(
    waypoint: Waypoint,
    new_waypoint: Waypoint,
    current_epoch: u64,
    next_epoch: u64,
) -> Result<Option<SafetyData>, ErrorView> {
    if current_epoch > next_epoch {
        Err(
            ErrorView::WaypointOutOfDate(
                waypoint.version,
                new_waypoint.version,
                current_epoch,
                next_epoch,
            ),
        )
    } else if current_epoch < next_epoch {
        Ok(Some(fresh(next_epoch)))
    } else {
        Ok(None)
    }
}

/// The rules in a given epoch.
pub open spec fn in_epoch(rules: RulesView, epoch_state: EpochStateView) -> RulesView {
    RulesView { epoch_state: Some(epoch_state), ..rules }
}

/// The rules with a given signer.
pub open spec fn with_signer(
    rules: RulesView,
    validator_signer: Option<ConfigurableValidatorSigner>,
) -> RulesView {
    RulesView { validator_signer, ..rules }
}

/// How the validator comes by its key for an epoch.
pub enum KeyDecision {
    /// The epoch does not list the validator.
    NotInSet,
    /// The signer holds the key already.
    InSet,
    /// The key is to be exported from storage.
    Export(PublicKey),
    /// The key stays in storage, which is to prove that it holds it.
    Test(PublicKey),
}

/// How `author` comes by its key for an epoch.
pub open spec fn key_decision(
    rules: RulesView,
    epoch_state: EpochStateView,
    author: Author,
) -> KeyDecision {
    match public_key_of(epoch_state.verifier.validators, author.address@) {
        None => KeyDecision::NotInSet,
        Some(expected) => if rules.validator_signer matches Some(signer)
            && signer.spec_public_key() == expected {
            KeyDecision::InSet
        } else if rules.export_consensus_key {
            KeyDecision::Export(expected)
        } else {
            KeyDecision::Test(expected)
        },
    }
}

/// A failed export: that there is no such key is told apart.
pub open spec fn export_error(error: ErrorView) -> ErrorView {
    match error {
        ErrorView::SecureStorageMissingDataError(text) => ErrorView::ValidatorKeyNotFound(text),
        error => error,
    }
}

/// What the outside has to say to a request to initialize.
pub struct InitializeReplies {
    /// The stored waypoint.
    pub waypoint: Result<Waypoint, ErrorView>,
    /// The last ledger info of the proof, if the proof holds from that waypoint on.
    pub ledger_info: Result<LedgerInfo, Seq<char>>,
    /// The waypoint at the start of the epoch that the ledger info leads to.
    pub boundary: Result<Waypoint, Seq<char>>,
    /// Whether a newer waypoint was stored.
    pub waypoint_stored: Result<(), ErrorView>,
    /// The stored safety data.
    pub safety_data: Result<SafetyData, ErrorView>,
    /// Whether a fresh start was stored.
    pub safety_data_stored: Result<(), ErrorView>,
    /// Who the validator is.
    pub author: Result<Author, ErrorView>,
    /// The validator's key, exported.
    pub exported: Result<ConsensusKey, ErrorView>,
    /// A signature with the key that stays in storage.
    pub tested: Result<Signature, Seq<char>>,
}

/// What a request to initialize leads to.
pub struct InitializeOutcome {
    pub result: Result<(), ErrorView>,
    pub rules: RulesView,
    /// The waypoint that storage was asked to take.
    pub waypoint: Option<Waypoint>,
    /// The safety data that storage was asked to take.
    pub safety_data: Option<SafetyData>,
}

/// The result of finding the validator's key, and the rules afterwards.
pub open spec fn key_outcome(
    rules: RulesView,
    epoch_state: EpochStateView,
    author: Author,
    exported: Result<ConsensusKey, ErrorView>,
    tested: Result<Signature, Seq<char>>,
) -> (Result<(), ErrorView>, RulesView) {
    let rules_there = in_epoch(rules, epoch_state);
    match key_decision(rules, epoch_state, author) {
        KeyDecision::NotInSet => (
            Err(ErrorView::ValidatorNotInSet(author.address@)),
            with_signer(rules_there, None),
        ),
        KeyDecision::InSet => (Ok(()), rules_there),
        KeyDecision::Export(_) => match exported {
            Ok(consensus_key) => (
                Ok(()),
                with_signer(
                    rules_there,
                    Some(ConfigurableValidatorSigner::Signer { author, consensus_key }),
                ),
            ),
            Err(error) => (Err(export_error(error)), with_signer(rules_there, None)),
        },
        KeyDecision::Test(key_version) => match tested {
            Ok(_) => (
                Ok(()),
                with_signer(
                    rules_there,
                    Some(ConfigurableValidatorSigner::Handle { author, key_version }),
                ),
            ),
            Err(text) => (
                Err(ErrorView::ValidatorKeyNotFound(text)),
                with_signer(rules_there, None),
            ),
        },
    }
}

/// What a request to initialize leads to, given all that the outside has to say.
pub open spec fn initialize_outcome(
    rules: RulesView,
    replies: InitializeReplies,
) -> InitializeOutcome {
    match replies.waypoint {
        Err(error) => refusal(rules, error, None, None),
        Ok(waypoint) => match proof_check(replies.ledger_info) {
            Err(error) => refusal(rules, error, None, None),
            Ok(epoch_state) => match boundary_check(replies.boundary) {
                Err(error) => refusal(rules, error, None, None),
                Ok(new_waypoint) => {
                    let stored = newer(waypoint, new_waypoint);
                    if stored is Some && replies.waypoint_stored is Err {
                        refusal(rules, replies.waypoint_stored->Err_0, stored, None)
                    } else {
                        match replies.safety_data {
                            Err(error) => refusal(rules, error, stored, None),
                            Ok(safety_data) => match epoch_decision(
                                waypoint,
                                new_waypoint,
                                safety_data.epoch,
                                epoch_state.epoch,
                            ) {
                                Err(error) => refusal(rules, error, stored, None),
                                Ok(start) => if start is Some && replies.safety_data_stored is Err {
                                    refusal(rules, replies.safety_data_stored->Err_0, stored, start)
                                } else {
                                    match replies.author {
                                        Err(error) => refusal(
                                            in_epoch(rules, epoch_state),
                                            error,
                                            stored,
                                            start,
                                        ),
                                        Ok(author) => {
                                            let (result, rules_after) = key_outcome(
                                                rules,
                                                epoch_state,
                                                author,
                                                replies.exported,
                                                replies.tested,
                                            );
                                            InitializeOutcome {
                                                result,
                                                rules: rules_after,
                                                waypoint: stored,
                                                safety_data: start,
                                            }
                                        },
                                    }
                                },
                            },
                        }
                    }
                },
            },
        },
    }
}

/// A refused request to initialize.
pub open spec fn refusal(
    rules: RulesView,
    error: ErrorView,
    waypoint: Option<Waypoint>,
    safety_data: Option<SafetyData>,
) -> InitializeOutcome {
    InitializeOutcome { result: Err(error), rules, waypoint, safety_data }
}

/// A request that waits for the proof to be checked.
#[must_use]
pub struct InitializeProof {
    waypoint: Waypoint,
}

/// A request with a valid proof, which waits for the waypoint at the start of the
/// epoch that it leads to.
#[must_use]
pub struct InitializeBoundary<'a> {
    waypoint: Waypoint,
    ledger_info: &'a LedgerInfo,
    epoch_state: EpochState,
}

/// What to do with the new waypoint.
#[must_use]
pub enum WaypointStep<'a> {
    /// It is newer and is to be stored.
    Store(StoreWaypoint<'a>),
    /// It is not, and the stored one stays.
    Keep(InitializeSafetyData<'a>),
}

/// A request with a newer waypoint, which waits for that to be stored.
#[must_use]
pub struct StoreWaypoint<'a> {
    waypoint: Waypoint,
    new_waypoint: Waypoint,
    ledger_info: &'a LedgerInfo,
    epoch_state: EpochState,
}

/// A request that waits for the stored safety data.
#[must_use]
pub struct InitializeSafetyData<'a> {
    waypoint: Waypoint,
    new_waypoint: Waypoint,
    ledger_info: &'a LedgerInfo,
    epoch_state: EpochState,
}

/// What to do with the stored safety data.
#[must_use]
pub enum EpochStep<'a> {
    /// A later epoch starts, and its fresh safety data is to be stored.
    Store(StoreSafetyData<'a>),
    /// The epoch goes on.
    Keep(InitializeAuthor<'a>),
}

/// A request that starts a later epoch, which waits for its safety data to be
/// stored.
#[must_use]
pub struct StoreSafetyData<'a> {
    waypoint: Waypoint,
    new_waypoint: Waypoint,
    ledger_info: &'a LedgerInfo,
    epoch_state: EpochState,
    current_epoch: Ghost<u64>,
    safety_data: SafetyData,
}

/// A request that waits to know who the validator is.
#[must_use]
pub struct InitializeAuthor<'a> {
    waypoint: Ghost<Waypoint>,
    new_waypoint: Ghost<Waypoint>,
    ledger_info: &'a LedgerInfo,
    epoch_state: EpochState,
    current_epoch: Ghost<u64>,
}

/// How the validator gets its key for the epoch.
#[must_use]
pub enum KeyStep<'a> {
    /// The signer holds it already: the request has succeeded.
    InSet,
    /// It is to be exported from storage.
    Export(ExportKey<'a>),
    /// It stays in storage, and is to be tried out there.
    Test(TestKey<'a>),
}

/// A request that waits for the validator's key to be exported.
#[must_use]
pub struct ExportKey<'a> {
    rules: Ghost<RulesView>,
    stage: Ghost<InitializeAuthor<'a>>,
    author: Author,
    public_key: PublicKey,
}

/// A request that waits for the key in storage to be tried out.
#[must_use]
pub struct TestKey<'a> {
    rules: Ghost<RulesView>,
    stage: Ghost<InitializeAuthor<'a>>,
    signer: ConfigurableValidatorSigner,
    ledger_info: &'a LedgerInfo,
}

impl SafetyRules {
    /// Starts to initialize the rules, with the stored waypoint.
    pub fn guarded_initialize(&self, waypoint: Result<Waypoint, Error>) -> (r: Result<
        InitializeProof,
        Error,
    >)
        ensures
            match r {
                Ok(next) => {
                    &&& waypoint == Ok::<_, Error>(next.spec_waypoint())
                    &&& viewed(waypoint) == Ok::<_, ErrorView>(next.spec_waypoint())
                    &&& forall|replies: InitializeReplies| #[trigger]
                        next.agrees(replies) <==> replies.waypoint == viewed(waypoint)
                },
                Err(error) => {
                    &&& waypoint == Err::<Waypoint, _>(error)
                    &&& viewed(waypoint) == Err::<Waypoint, _>(error@)
                    &&& forall|rules: RulesView, replies: InitializeReplies|
                        replies.waypoint == viewed(waypoint) ==> #[trigger] initialize_outcome(
                            rules,
                            replies,
                        ) == refusal(rules, error@, None, None)
                },
            },
    {
        let waypoint = waypoint?;
        Ok(InitializeProof { waypoint })
    }
}

impl InitializeProof {
    /// Whether the request got here by these replies.
    pub closed spec fn agrees(self, replies: InitializeReplies) -> bool {
        replies.waypoint == Ok::<_, ErrorView>(self.waypoint)
    }

    /// The waypoint that was read.
    pub closed spec fn spec_waypoint(self) -> Waypoint {
        self.waypoint
    }

    /// The waypoint to check the proof from.
    pub fn waypoint(&self) -> (r: Waypoint)
        ensures
            r == self.spec_waypoint(),
            forall|replies: InitializeReplies| #[trigger]
                self.agrees(replies) <==> replies.waypoint == Ok::<_, ErrorView>(r),
    {
        self.waypoint
    }

    /// Goes on with the last ledger info of the proof, if the proof holds.
    pub fn proof_checked<'a>(self, check: Result<&'a LedgerInfo, String>) -> (r: Result<
        InitializeBoundary<'a>,
        Error,
    >)
        ensures
            match r {
                Ok(next) => {
                    &&& check == Ok::<_, String>(&next.spec_ledger_info())
                    &&& next.spec_ledger_info().next_epoch_state matches Some(epoch_state)
                    &&& next.spec_epoch_state() == epoch_state@
                    &&& proof_check(told_of(check)) == Ok::<_, ErrorView>(next.spec_epoch_state())
                    &&& next.spec_waypoint() == self.spec_waypoint()
                    &&& forall|replies: InitializeReplies| #[trigger]
                        next.agrees(replies) <==> self.agrees(replies) && replies.ledger_info
                            == told_of(check)
                },
                Err(error) => {
                    &&& match check {
                        Err(text) => error@ == ErrorView::InvalidEpochChangeProof(text@),
                        Ok(ledger_info) => {
                            &&& ledger_info.next_epoch_state is None
                            &&& error == Error::InvalidLedgerInfo
                        },
                    }
                    &&& forall|rules: RulesView, replies: InitializeReplies|
                        self.agrees(replies) && replies.ledger_info == told_of(check)
                            ==> #[trigger] initialize_outcome(rules, replies) == refusal(
                            rules,
                            error@,
                            None,
                            None,
                        )
                },
            },
    {
        let ledger_info = match check {
            Ok(ledger_info) => ledger_info,
            Err(text) => {
                return Err(Error::InvalidEpochChangeProof(text));
            },
        };
        match &ledger_info.next_epoch_state {
            Some(epoch_state) => Ok(
                InitializeBoundary {
                    waypoint: self.waypoint,
                    ledger_info,
                    epoch_state: epoch_state.clone(),
                },
            ),
            None => Err(Error::InvalidLedgerInfo),
        }
    }
}

/// The checked ledger info, by value.
pub open spec fn told_of(check: Result<&LedgerInfo, String>) -> Result<LedgerInfo, Seq<char>> {
    match check {
        Ok(ledger_info) => Ok(*ledger_info),
        Err(text) => Err(text@),
    }
}

impl<'a> InitializeBoundary<'a> {
    /// The last ledger info of the proof.
    pub closed spec fn spec_ledger_info(self) -> LedgerInfo {
        *self.ledger_info
    }

    /// Whether the request got here by these replies.
    pub closed spec fn agrees(self, replies: InitializeReplies) -> bool {
        &&& replies.waypoint == Ok::<_, ErrorView>(self.waypoint)
        &&& replies.ledger_info == Ok::<_, Seq<char>>(*self.ledger_info)
    }

    /// The waypoint that was read.
    pub closed spec fn spec_waypoint(self) -> Waypoint {
        self.waypoint
    }

    /// The epoch that the proof leads to.
    pub closed spec fn spec_epoch_state(self) -> EpochStateView {
        self.epoch_state@
    }

    #[verifier::type_invariant]
    closed spec fn inv(self) -> bool {
        proof_check(Ok(*self.ledger_info)) == Ok::<_, ErrorView>(self.epoch_state@)
    }

    /// The ledger info to build the waypoint from.
    pub fn ledger_info(&self) -> (r: &'a LedgerInfo)
        ensures
            *r == self.spec_ledger_info(),
            forall|replies: InitializeReplies| #[trigger]
                self.agrees(replies) ==> replies.ledger_info == Ok::<_, Seq<char>>(*r),
    {
        self.ledger_info
    }

    /// Goes on with the new waypoint.
    pub fn boundary(self, built: Result<Waypoint, String>) -> (r: Result<WaypointStep<'a>, Error>)
        ensures
            match r {
                Ok(WaypointStep::Store(next)) => {
                    &&& built == Ok::<_, String>(next.spec_new_waypoint())
                    &&& next.spec_new_waypoint().version > self.spec_waypoint().version
                    &&& next.spec_ledger_info() == self.spec_ledger_info()
                    &&& told(built) == Ok::<_, Seq<char>>(next.spec_new_waypoint())
                    &&& newer(self.spec_waypoint(), next.spec_new_waypoint()) is Some
                    &&& next.spec_waypoint() == self.spec_waypoint()
                    &&& next.spec_epoch_state() == self.spec_epoch_state()
                    &&& forall|replies: InitializeReplies| #[trigger]
                        next.agrees(replies) <==> self.agrees(replies) && replies.boundary == told(
                            built,
                        )
                },
                Ok(WaypointStep::Keep(next)) => {
                    &&& built == Ok::<_, String>(next.spec_new_waypoint())
                    &&& next.spec_new_waypoint().version <= self.spec_waypoint().version
                    &&& next.spec_ledger_info() == self.spec_ledger_info()
                    &&& told(built) == Ok::<_, Seq<char>>(next.spec_new_waypoint())
                    &&& newer(self.spec_waypoint(), next.spec_new_waypoint()) is None
                    &&& next.spec_waypoint() == self.spec_waypoint()
                    &&& next.spec_epoch_state() == self.spec_epoch_state()
                    &&& forall|replies: InitializeReplies| #[trigger]
                        next.agrees(replies) <==> self.agrees(replies) && replies.boundary == told(
                            built,
                        )
                },
                Err(error) => {
                    &&& built matches Err(text)
                    &&& error@ == ErrorView::InternalError(text@)
                    &&& forall|rules: RulesView, replies: InitializeReplies|
                        self.agrees(replies) && replies.boundary == told(built)
                            ==> #[trigger] initialize_outcome(rules, replies) == refusal(
                            rules,
                            error@,
                            None,
                            None,
                        )
                },
            },
    {
        proof {
            use_type_invariant(&self);
        }
        let new_waypoint = match built {
            Ok(new_waypoint) => new_waypoint,
            Err(text) => {
                return Err(Error::InternalError(text));
            },
        };
        let waypoint = self.waypoint;
        let ledger_info = self.ledger_info;
        let epoch_state = self.epoch_state;
        if new_waypoint.version > waypoint.version {
            Ok(
                WaypointStep::Store(
                    StoreWaypoint { waypoint, new_waypoint, ledger_info, epoch_state },
                ),
            )
        } else {
            Ok(
                WaypointStep::Keep(
                    InitializeSafetyData { waypoint, new_waypoint, ledger_info, epoch_state },
                ),
            )
        }
    }
}

impl<'a> StoreWaypoint<'a> {
    /// The last ledger info of the proof.
    pub closed spec fn spec_ledger_info(self) -> LedgerInfo {
        *self.ledger_info
    }

    /// Whether the request got here by these replies.
    pub closed spec fn agrees(self, replies: InitializeReplies) -> bool {
        &&& replies.waypoint == Ok::<_, ErrorView>(self.waypoint)
        &&& replies.ledger_info == Ok::<_, Seq<char>>(*self.ledger_info)
        &&& replies.boundary == Ok::<_, Seq<char>>(self.new_waypoint)
    }

    /// The waypoint that was read.
    pub closed spec fn spec_waypoint(self) -> Waypoint {
        self.waypoint
    }

    pub closed spec fn spec_new_waypoint(self) -> Waypoint {
        self.new_waypoint
    }

    /// The epoch that the proof leads to.
    pub closed spec fn spec_epoch_state(self) -> EpochStateView {
        self.epoch_state@
    }

    #[verifier::type_invariant]
    closed spec fn inv(self) -> bool {
        &&& proof_check(Ok(*self.ledger_info)) == Ok::<_, ErrorView>(self.epoch_state@)
        &&& newer(self.waypoint, self.new_waypoint) is Some
    }

    /// The waypoint to store, which is newer than the one that was read.
    pub fn new_waypoint(&self) -> (r: Waypoint)
        ensures
            r == self.spec_new_waypoint(),
            r.version > self.spec_waypoint().version,
    {
        proof {
            use_type_invariant(self);
        }
        self.new_waypoint
    }

    /// Goes on once the waypoint is stored.
    pub fn stored(self, stored: Result<(), Error>) -> (r: Result<InitializeSafetyData<'a>, Error>)
        ensures
            match r {
                Ok(next) => {
                    &&& stored is Ok
                    &&& next.spec_ledger_info() == self.spec_ledger_info()
                    &&& next.spec_waypoint() == self.spec_waypoint()
                    &&& next.spec_new_waypoint() == self.spec_new_waypoint()
                    &&& next.spec_epoch_state() == self.spec_epoch_state()
                    &&& forall|replies: InitializeReplies| #[trigger]
                        next.agrees(replies) <==> self.agrees(replies) && replies.waypoint_stored
                            == viewed(stored)
                },
                Err(error) => {
                    &&& stored == Err::<(), _>(error)
                    &&& viewed(stored) == Err::<(), _>(error@)
                    &&& forall|rules: RulesView, replies: InitializeReplies|
                        self.agrees(replies) && replies.waypoint_stored == viewed(stored)
                            ==> #[trigger] initialize_outcome(rules, replies) == refusal(
                            rules,
                            error@,
                            Some(self.spec_new_waypoint()),
                            None,
                        )
                },
            },
    {
        proof {
            use_type_invariant(&self);
        }
        stored?;
        Ok(
            InitializeSafetyData {
                waypoint: self.waypoint,
                new_waypoint: self.new_waypoint,
                ledger_info: self.ledger_info,
                epoch_state: self.epoch_state,
            },
        )
    }
}

impl<'a> InitializeSafetyData<'a> {
    /// The last ledger info of the proof.
    pub closed spec fn spec_ledger_info(self) -> LedgerInfo {
        *self.ledger_info
    }

    /// Whether the request got here by these replies.
    pub closed spec fn agrees(self, replies: InitializeReplies) -> bool {
        &&& replies.waypoint == Ok::<_, ErrorView>(self.waypoint)
        &&& replies.ledger_info == Ok::<_, Seq<char>>(*self.ledger_info)
        &&& replies.boundary == Ok::<_, Seq<char>>(self.new_waypoint)
        &&& newer(self.waypoint, self.new_waypoint) is Some ==> replies.waypoint_stored == Ok::<
            _,
            ErrorView,
        >(())
    }

    /// The waypoint that was read.
    pub closed spec fn spec_waypoint(self) -> Waypoint {
        self.waypoint
    }

    pub closed spec fn spec_new_waypoint(self) -> Waypoint {
        self.new_waypoint
    }

    /// The epoch that the proof leads to.
    pub closed spec fn spec_epoch_state(self) -> EpochStateView {
        self.epoch_state@
    }

    #[verifier::type_invariant]
    closed spec fn inv(self) -> bool {
        proof_check(Ok(*self.ledger_info)) == Ok::<_, ErrorView>(self.epoch_state@)
    }

    /// Goes on with the stored safety data.
    pub fn safety_data(self, read: Result<SafetyData, Error>) -> (r: Result<EpochStep<'a>, Error>)
        ensures
            match r {
                Ok(EpochStep::Store(next)) => {
                    &&& viewed(read) matches Ok(safety_data)
                    &&& epoch_decision(
                        self.spec_waypoint(),
                        self.spec_new_waypoint(),
                        safety_data.epoch,
                        self.spec_epoch_state().epoch,
                    ) == Ok::<_, ErrorView>(Some(next.spec_safety_data()))
                    &&& safety_data.epoch < self.spec_epoch_state().epoch
                    &&& next.spec_ledger_info() == self.spec_ledger_info()
                    &&& next.spec_waypoint() == self.spec_waypoint()
                    &&& next.spec_new_waypoint() == self.spec_new_waypoint()
                    &&& next.spec_epoch_state() == self.spec_epoch_state()
                    &&& next.spec_current_epoch() == safety_data.epoch
                    &&& forall|replies: InitializeReplies| #[trigger]
                        next.agrees(replies) <==> self.agrees(replies) && (replies.safety_data
                            matches Ok(replied) && replied.epoch == safety_data.epoch)
                },
                Ok(EpochStep::Keep(next)) => {
                    &&& viewed(read) matches Ok(safety_data)
                    &&& epoch_decision(
                        self.spec_waypoint(),
                        self.spec_new_waypoint(),
                        safety_data.epoch,
                        self.spec_epoch_state().epoch,
                    ) == Ok::<_, ErrorView>(None::<SafetyData>)
                    &&& safety_data.epoch == self.spec_epoch_state().epoch
                    &&& next.spec_ledger_info() == self.spec_ledger_info()
                    &&& next.spec_epoch_state() == self.spec_epoch_state()
                    &&& next.spec_stored_waypoint() == newer(
                        self.spec_waypoint(),
                        self.spec_new_waypoint(),
                    )
                    &&& next.spec_start() is None
                    &&& forall|replies: InitializeReplies| #[trigger]
                        next.agrees(replies) <==> self.agrees(replies) && (replies.safety_data
                            matches Ok(replied) && replied.epoch == safety_data.epoch)
                },
                Err(error) => {
                    &&& match read {
                        Err(failure) => error == failure,
                        Ok(safety_data) => {
                            &&& safety_data.epoch > self.spec_epoch_state().epoch
                            &&& error@ == ErrorView::WaypointOutOfDate(
                                self.spec_waypoint().version,
                                self.spec_new_waypoint().version,
                                safety_data.epoch,
                                self.spec_epoch_state().epoch,
                            )
                        },
                    }
                    &&& forall|rules: RulesView, replies: InitializeReplies|
                        self.agrees(replies) && replies.safety_data == viewed(read)
                            ==> #[trigger] initialize_outcome(rules, replies) == refusal(
                            rules,
                            error@,
                            newer(self.spec_waypoint(), self.spec_new_waypoint()),
                            None,
                        )
                },
            },
    {
        proof {
            use_type_invariant(&self);
        }
        let current_epoch: u64 = read?.epoch;
        let next_epoch: u64 = self.epoch_state.epoch;
        if current_epoch > next_epoch {
            // The waypoint is not up to the current epoch.
            return Err(
                Error::WaypointOutOfDate(
                    self.waypoint.version,
                    self.new_waypoint.version,
                    current_epoch,
                    next_epoch,
                ),
            );
        }
        if current_epoch < next_epoch {
            // Start a new epoch.
            Ok(
                EpochStep::Store(
                    StoreSafetyData {
                        waypoint: self.waypoint,
                        new_waypoint: self.new_waypoint,
                        ledger_info: self.ledger_info,
                        epoch_state: self.epoch_state,
                        current_epoch: Ghost(current_epoch),
                        safety_data: SafetyData::new(next_epoch, 0, 0, 0, None),
                    },
                ),
            )
        } else {
            Ok(
                EpochStep::Keep(
                    InitializeAuthor {
                        waypoint: Ghost(self.waypoint),
                        new_waypoint: Ghost(self.new_waypoint),
                        ledger_info: self.ledger_info,
                        epoch_state: self.epoch_state,
                        current_epoch: Ghost(current_epoch),
                    },
                ),
            )
        }
    }
}

impl<'a> StoreSafetyData<'a> {
    /// The last ledger info of the proof.
    pub closed spec fn spec_ledger_info(self) -> LedgerInfo {
        *self.ledger_info
    }

    /// Whether the request got here by these replies.
    pub closed spec fn agrees(self, replies: InitializeReplies) -> bool {
        &&& replies.waypoint == Ok::<_, ErrorView>(self.waypoint)
        &&& replies.ledger_info == Ok::<_, Seq<char>>(*self.ledger_info)
        &&& replies.boundary == Ok::<_, Seq<char>>(self.new_waypoint)
        &&& newer(self.waypoint, self.new_waypoint) is Some ==> replies.waypoint_stored == Ok::<
            _,
            ErrorView,
        >(())
        &&& replies.safety_data matches Ok(safety_data)
        &&& safety_data.epoch == self.current_epoch@
    }

    /// The waypoint that was read.
    pub closed spec fn spec_waypoint(self) -> Waypoint {
        self.waypoint
    }

    pub closed spec fn spec_new_waypoint(self) -> Waypoint {
        self.new_waypoint
    }

    /// The epoch of the safety data that was read.
    pub closed spec fn spec_current_epoch(self) -> u64 {
        self.current_epoch@
    }

    /// The epoch that the proof leads to.
    pub closed spec fn spec_epoch_state(self) -> EpochStateView {
        self.epoch_state@
    }

    pub closed spec fn spec_safety_data(self) -> SafetyData {
        self.safety_data
    }

    #[verifier::type_invariant]
    closed spec fn inv(self) -> bool {
        &&& proof_check(Ok(*self.ledger_info)) == Ok::<_, ErrorView>(self.epoch_state@)
        &&& epoch_decision(
            self.waypoint,
            self.new_waypoint,
            self.current_epoch@,
            self.epoch_state.epoch,
        ) == Ok::<_, ErrorView>(Some(self.safety_data))
    }

    /// The safety data to store: a fresh start in a later epoch.
    pub fn safety_data(&self) -> (r: &SafetyData)
        ensures
            *r == self.spec_safety_data(),
            *r == fresh(self.spec_epoch_state().epoch),
            r.epoch > self.spec_current_epoch(),
    {
        proof {
            use_type_invariant(self);
        }
        &self.safety_data
    }

    /// Goes on once the safety data is stored.
    pub fn stored(self, stored: Result<(), Error>) -> (r: Result<InitializeAuthor<'a>, Error>)
        ensures
            match r {
                Ok(next) => {
                    &&& stored is Ok
                    &&& next.spec_ledger_info() == self.spec_ledger_info()
                    &&& next.spec_epoch_state() == self.spec_epoch_state()
                    &&& next.spec_stored_waypoint() == newer(
                        self.spec_waypoint(),
                        self.spec_new_waypoint(),
                    )
                    &&& next.spec_start() == Some(self.spec_safety_data())
                    &&& forall|replies: InitializeReplies| #[trigger]
                        next.agrees(replies) <==> self.agrees(replies)
                            && replies.safety_data_stored == viewed(stored)
                },
                Err(error) => {
                    &&& stored == Err::<(), _>(error)
                    &&& viewed(stored) == Err::<(), _>(error@)
                    &&& forall|rules: RulesView, replies: InitializeReplies|
                        self.agrees(replies) && replies.safety_data_stored == viewed(stored)
                            ==> #[trigger] initialize_outcome(rules, replies) == refusal(
                            rules,
                            error@,
                            newer(self.spec_waypoint(), self.spec_new_waypoint()),
                            Some(self.spec_safety_data()),
                        )
                },
            },
    {
        proof {
            use_type_invariant(&self);
        }
        stored?;
        Ok(
            InitializeAuthor {
                waypoint: Ghost(self.waypoint),
                new_waypoint: Ghost(self.new_waypoint),
                ledger_info: self.ledger_info,
                epoch_state: self.epoch_state,
                current_epoch: self.current_epoch,
            },
        )
    }
}

impl<'a> InitializeAuthor<'a> {
    /// The last ledger info of the proof.
    pub closed spec fn spec_ledger_info(self) -> LedgerInfo {
        *self.ledger_info
    }

    /// Whether the request got here by these replies.
    pub closed spec fn agrees(self, replies: InitializeReplies) -> bool {
        &&& replies.waypoint == Ok::<_, ErrorView>(self.waypoint@)
        &&& replies.ledger_info == Ok::<_, Seq<char>>(*self.ledger_info)
        &&& replies.boundary == Ok::<_, Seq<char>>(self.new_waypoint@)
        &&& newer(self.waypoint@, self.new_waypoint@) is Some ==> replies.waypoint_stored == Ok::<
            _,
            ErrorView,
        >(())
        &&& replies.safety_data matches Ok(safety_data)
        &&& safety_data.epoch == self.current_epoch@
        &&& self.spec_start() is Some ==> replies.safety_data_stored == Ok::<_, ErrorView>(())
    }

    /// The waypoint that was stored, if a newer one was.
    pub closed spec fn spec_stored_waypoint(self) -> Option<Waypoint> {
        newer(self.waypoint@, self.new_waypoint@)
    }

    /// The safety data that was stored, if a later epoch starts.
    pub closed spec fn spec_start(self) -> Option<SafetyData> {
        if self.current_epoch@ < self.epoch_state.epoch {
            Some(fresh(self.epoch_state.epoch))
        } else {
            None
        }
    }

    /// The epoch that the proof leads to.
    pub closed spec fn spec_epoch_state(self) -> EpochStateView {
        self.epoch_state@
    }

    #[verifier::type_invariant]
    closed spec fn inv(self) -> bool {
        &&& proof_check(Ok(*self.ledger_info)) == Ok::<_, ErrorView>(self.epoch_state@)
        &&& epoch_decision(
            self.waypoint@,
            self.new_waypoint@,
            self.current_epoch@,
            self.epoch_state.epoch,
        ) == Ok::<_, ErrorView>(self.spec_start())
    }
}

impl SafetyRules {
    /// Goes on with who the validator is: takes over the epoch, and decides how
    /// the validator gets its key for it. While a key is asked for, the rules hold
    /// no signer.
    pub fn initialize_author<'a>(
        &mut self,
        stage: InitializeAuthor<'a>,
        author: Result<Author, Error>,
    ) -> (r: Result<KeyStep<'a>, Error>)
        ensures
            final(self)@ == with_signer(
                in_epoch(old(self)@, stage.spec_epoch_state()),
                final(self)@.validator_signer,
            ),
            match r {
                Ok(KeyStep::InSet) => {
                    &&& viewed(author) matches Ok(author)
                    &&& key_decision(old(self)@, stage.spec_epoch_state(), author) is InSet
                    &&& final(self)@ == in_epoch(old(self)@, stage.spec_epoch_state())
                    &&& forall|replies: InitializeReplies|
                        stage.agrees(replies) && replies.author == Ok::<_, ErrorView>(author)
                            ==> #[trigger] initialize_outcome(old(self)@, replies) == (
                        InitializeOutcome {
                            result: Ok(()),
                            rules: final(self)@,
                            waypoint: stage.spec_stored_waypoint(),
                            safety_data: stage.spec_start(),
                        })
                },
                Ok(KeyStep::Export(next)) => {
                    &&& author == Ok::<_, Error>(next.spec_author())
                    &&& viewed(author) == Ok::<_, ErrorView>(next.spec_author())
                    &&& key_decision(old(self)@, stage.spec_epoch_state(), next.spec_author())
                        == KeyDecision::Export(next.spec_public_key())
                    &&& final(self)@ == with_signer(
                        in_epoch(old(self)@, stage.spec_epoch_state()),
                        None,
                    )
                    &&& next.spec_rules() == final(self)@
                    &&& next.spec_stored_waypoint() == stage.spec_stored_waypoint()
                    &&& next.spec_start() == stage.spec_start()
                    &&& forall|rules: RulesView, replies: InitializeReplies| #[trigger]
                        next.agrees(rules, replies) <==> rules == old(self)@ && stage.agrees(
                            replies,
                        ) && replies.author == viewed(author)
                },
                Ok(KeyStep::Test(next)) => {
                    &&& author == Ok::<_, Error>(next.spec_signer().spec_author())
                    &&& next.spec_ledger_info() == stage.spec_ledger_info()
                    &&& viewed(author) == Ok::<_, ErrorView>(next.spec_signer().spec_author())
                    &&& next.spec_signer() is Handle
                    &&& key_decision(
                        old(self)@,
                        stage.spec_epoch_state(),
                        next.spec_signer().spec_author(),
                    ) == KeyDecision::Test(next.spec_signer().spec_public_key())
                    &&& final(self)@ == with_signer(
                        in_epoch(old(self)@, stage.spec_epoch_state()),
                        None,
                    )
                    &&& next.spec_rules() == final(self)@
                    &&& next.spec_stored_waypoint() == stage.spec_stored_waypoint()
                    &&& next.spec_start() == stage.spec_start()
                    &&& forall|rules: RulesView, replies: InitializeReplies| #[trigger]
                        next.agrees(rules, replies) <==> rules == old(self)@ && stage.agrees(
                            replies,
                        ) && replies.author == viewed(author)
                },
                Err(error) => {
                    &&& match author {
                        Err(failure) => {
                            &&& error == failure
                            &&& final(self)@ == in_epoch(old(self)@, stage.spec_epoch_state())
                        },
                        Ok(author) => {
                            &&& key_decision(
                                old(self)@,
                                stage.spec_epoch_state(),
                                author,
                            ) is NotInSet
                            &&& error@ == ErrorView::ValidatorNotInSet(author.address@)
                            &&& final(self)@ == with_signer(
                                in_epoch(old(self)@, stage.spec_epoch_state()),
                                None,
                            )
                        },
                    }
                    &&& forall|replies: InitializeReplies|
                        stage.agrees(replies) && replies.author == viewed(author)
                            ==> #[trigger] initialize_outcome(old(self)@, replies) == refusal(
                            final(self)@,
                            error@,
                            stage.spec_stored_waypoint(),
                            stage.spec_start(),
                        )
                },
            },
    {
        proof {
            use_type_invariant(&stage);
        }
        let ghost rules = self@;
        let ghost origin = stage;
        let ledger_info = stage.ledger_info;
        self.set_epoch_state(stage.epoch_state);
        let author = author?;
        let expected = match &self.epoch_state {
            Some(epoch_state) => epoch_state.verifier.get_public_key(&author),
            None => None,
        };
        match expected {
            None => {
                self.clear_signer();
                Err(Error::ValidatorNotInSet(author.address))
            },
            Some(public_key) => {
                let holds = match &self.validator_signer {
                    Some(signer) => signer.public_key() == public_key,
                    None => false,
                };
                if holds {
                    Ok(KeyStep::InSet)
                } else if self.export_consensus_key {
                    // Try to export the consensus key directly from storage.
                    self.clear_signer();
                    Ok(
                        KeyStep::Export(
                            ExportKey {
                                rules: Ghost(rules),
                                stage: Ghost(origin),
                                author,
                                public_key,
                            },
                        ),
                    )
                } else {
                    // Try to sign with the key in storage, to see that it is held there.
                    self.clear_signer();
                    let signer = ConfigurableValidatorSigner::new_handle(author, public_key);
                    Ok(
                        KeyStep::Test(
                            TestKey {
                                rules: Ghost(rules),
                                stage: Ghost(origin),
                                signer,
                                ledger_info,
                            },
                        ),
                    )
                }
            },
        }
    }

    /// Ends with the exported key. The rules are those that asked for it.
    pub fn initialize_exported<'a>(
        &mut self,
        stage: ExportKey<'a>,
        exported: Result<ConsensusKey, Error>,
    ) -> (r: Result<(), Error>)
        requires
            old(self)@ == stage.spec_rules(),
        ensures
            match exported {
                Ok(consensus_key) => {
                    &&& r == Ok::<_, Error>(())
                    &&& final(self)@ == with_signer(
                        old(self)@,
                        Some(
                            ConfigurableValidatorSigner::Signer {
                                author: stage.spec_author(),
                                consensus_key,
                            },
                        ),
                    )
                },
                Err(error) => {
                    &&& !(error is SecureStorageMissingDataError) ==> r == Err::<(), _>(error)
                    &&& viewed(r) == Err::<(), _>(export_error(error@))
                    &&& final(self)@ == old(self)@
                },
            },
            forall|rules: RulesView, replies: InitializeReplies|
                stage.agrees(rules, replies) && replies.exported == viewed(exported)
                    ==> #[trigger] initialize_outcome(rules, replies) == (InitializeOutcome {
                    result: viewed(r),
                    rules: final(self)@,
                    waypoint: stage.spec_stored_waypoint(),
                    safety_data: stage.spec_start(),
                }),
    {
        proof {
            use_type_invariant(&stage);
        }
        match exported {
            Ok(consensus_key) => {
                self.set_signer(
                    ConfigurableValidatorSigner::new_signer(stage.author, consensus_key),
                );
                Ok(())
            },
            Err(Error::SecureStorageMissingDataError(text)) => Err(
                Error::ValidatorKeyNotFound(text),
            ),
            Err(error) => Err(error),
        }
    }

    /// Ends with the signature of the key in storage. Where there is none, the
    /// text of the failure is given. The rules are those that asked for it.
    pub fn initialize_tested<'a>(
        &mut self,
        stage: TestKey<'a>,
        tested: Result<Signature, String>,
    ) -> (r: Result<(), Error>)
        requires
            old(self)@ == stage.spec_rules(),
        ensures
            match tested {
                Ok(_) => {
                    &&& r == Ok::<_, Error>(())
                    &&& final(self)@ == with_signer(old(self)@, Some(stage.spec_signer()))
                },
                Err(text) => {
                    &&& viewed(r) == Err::<(), _>(ErrorView::ValidatorKeyNotFound(text@))
                    &&& final(self)@ == old(self)@
                },
            },
            forall|rules: RulesView, replies: InitializeReplies|
                stage.agrees(rules, replies) && replies.tested == told(tested)
                    ==> #[trigger] initialize_outcome(rules, replies) == (InitializeOutcome {
                    result: viewed(r),
                    rules: final(self)@,
                    waypoint: stage.spec_stored_waypoint(),
                    safety_data: stage.spec_start(),
                }),
    {
        proof {
            use_type_invariant(&stage);
        }
        match tested {
            Ok(_) => {
                self.set_signer(stage.signer);
                Ok(())
            },
            Err(text) => Err(Error::ValidatorKeyNotFound(text)),
        }
    }
}

impl<'a> ExportKey<'a> {
    /// Whether the request got here from these rules by these replies.
    pub closed spec fn agrees(self, rules: RulesView, replies: InitializeReplies) -> bool {
        &&& rules == self.rules@
        &&& self.stage@.agrees(replies)
        &&& replies.author == Ok::<_, ErrorView>(self.author)
    }

    /// The rules as the last step left them.
    pub closed spec fn spec_rules(self) -> RulesView {
        with_signer(in_epoch(self.rules@, self.stage@.spec_epoch_state()), None)
    }

    pub closed spec fn spec_author(self) -> Author {
        self.author
    }

    pub closed spec fn spec_public_key(self) -> PublicKey {
        self.public_key
    }

    /// The waypoint that was stored, if a newer one was.
    pub closed spec fn spec_stored_waypoint(self) -> Option<Waypoint> {
        self.stage@.spec_stored_waypoint()
    }

    /// The safety data that was stored, if a later epoch starts.
    pub closed spec fn spec_start(self) -> Option<SafetyData> {
        self.stage@.spec_start()
    }

    #[verifier::type_invariant]
    closed spec fn inv(self) -> bool {
        &&& self.stage@.inv()
        &&& key_decision(self.rules@, self.stage@.spec_epoch_state(), self.author)
            == KeyDecision::Export(self.public_key)
    }

    /// The version of the key to export.
    pub fn public_key(&self) -> (r: PublicKey)
        ensures
            r == self.spec_public_key(),
    {
        self.public_key
    }
}

impl<'a> TestKey<'a> {
    /// The last ledger info of the proof.
    pub closed spec fn spec_ledger_info(self) -> LedgerInfo {
        *self.ledger_info
    }

    /// Whether the request got here from these rules by these replies.
    pub closed spec fn agrees(self, rules: RulesView, replies: InitializeReplies) -> bool {
        &&& rules == self.rules@
        &&& self.stage@.agrees(replies)
        &&& replies.author == Ok::<_, ErrorView>(self.signer.spec_author())
    }

    /// The rules as the last step left them.
    pub closed spec fn spec_rules(self) -> RulesView {
        with_signer(in_epoch(self.rules@, self.stage@.spec_epoch_state()), None)
    }

    pub closed spec fn spec_signer(self) -> ConfigurableValidatorSigner {
        self.signer
    }

    /// The waypoint that was stored, if a newer one was.
    pub closed spec fn spec_stored_waypoint(self) -> Option<Waypoint> {
        self.stage@.spec_stored_waypoint()
    }

    /// The safety data that was stored, if a later epoch starts.
    pub closed spec fn spec_start(self) -> Option<SafetyData> {
        self.stage@.spec_start()
    }

    #[verifier::type_invariant]
    closed spec fn inv(self) -> bool {
        &&& self.stage@.inv()
        &&& *self.stage@.ledger_info == *self.ledger_info
        &&& self.signer is Handle
        &&& key_decision(
            self.rules@,
            self.stage@.spec_epoch_state(),
            self.signer.spec_author(),
        ) == KeyDecision::Test(self.signer.spec_public_key())
    }

    /// What to ask the signer for: a signature on the proof's last ledger info.
    pub fn request(&self) -> (r: SigningRequest<'_, LedgerInfo>)
        ensures
            r.spec_signer() == self.spec_signer(),
            r.spec_message() == self.spec_ledger_info(),
            forall|rules: RulesView, replies: InitializeReplies| #[trigger]
                self.agrees(rules, replies) ==> replies.ledger_info == Ok::<_, Seq<char>>(
                    r.spec_message(),
                ),
    {
        proof {
            use_type_invariant(self);
        }
        SigningRequest { signer: &self.signer, message: self.ledger_info }
    }
}

} // verus!
