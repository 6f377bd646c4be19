//! What a run of the request to initialize comes to, in terms of the rules and of what
//! each step was told.

use crate::error::Error;
use crate::initialize::{
    EpochStep, ExportKey, InitializeAuthor, InitializeBoundary, InitializeProof,
    InitializeSafetyData, KeyStep, StoreSafetyData, StoreWaypoint, TestKey, WaypointStep,
};
use crate::laws::values::{account, last_listed, the_listed_key_is_the_last, verifying_key};
use crate::safety_rules::{RulesView, SafetyRules};
use crate::signer::{ConfigurableValidatorSigner, ConsensusKey, SigningRequest};
use crate::types::{
    Author, EpochState, EpochStateView, LedgerInfo, PublicKey, SafetyData, Signature,
    ValidatorInfo, Waypoint,
};
use vstd::prelude::*;

verus! {

/// The request starts exactly when the waypoint was read. The proof is to be checked
/// from that waypoint.
pub proof fn the_proof_is_checked_from_the_stored_waypoint(
    rules: &SafetyRules,
    waypoint: Result<Waypoint, Error>,
    r: Result<InitializeProof, Error>,
)
    requires
        call_ensures(SafetyRules::guarded_initialize, (rules, waypoint), r),
    ensures
        r is Ok <==> waypoint is Ok,
        waypoint is Err ==> r->Err_0 == waypoint->Err_0,
        forall|from: Waypoint|
            r is Ok && #[trigger] call_ensures(InitializeProof::waypoint, (&r->Ok_0,), from)
                ==> waypoint == Ok::<_, Error>(from),
{
}

/// A proof is accepted exactly when it holds and leads to an epoch. The new waypoint is
/// to be built from its last ledger info.
pub proof fn a_proof_is_accepted_exactly_when_it_leads_to_an_epoch<'a>(
    step: InitializeProof,
    check: Result<&'a LedgerInfo, String>,
    r: Result<InitializeBoundary<'a>, Error>,
)
    requires
        call_ensures(InitializeProof::proof_checked, (step, check), r),
    ensures
        r is Ok <==> check is Ok && check->Ok_0.next_epoch_state is Some,
        check is Err ==> (r matches Err(Error::InvalidEpochChangeProof(text)) && text@
            == check->Err_0@),
        check is Ok && r is Err ==> r->Err_0 == Error::InvalidLedgerInfo,
        forall|ledger_info: &'a LedgerInfo|
            r is Ok && #[trigger] call_ensures(
                InitializeBoundary::ledger_info,
                (&r->Ok_0,),
                ledger_info,
            ) ==> *ledger_info == *check->Ok_0,
{
}

/// A new waypoint is to be stored exactly when its version is above that of the stored
/// one, and is stored as it was built.
pub proof fn a_waypoint_is_stored_exactly_when_newer<'a>(
    rules: &SafetyRules,
    waypoint: Waypoint,
    start: InitializeProof,
    check: Result<&'a LedgerInfo, String>,
    step: InitializeBoundary<'a>,
    built: Result<Waypoint, String>,
    r: Result<WaypointStep<'a>, Error>,
)
    requires
        call_ensures(SafetyRules::guarded_initialize, (rules, Ok(waypoint)), Ok(start)),
        call_ensures(InitializeProof::proof_checked, (start, check), Ok(step)),
        call_ensures(InitializeBoundary::boundary, (step, built), r),
    ensures
        r is Ok <==> built is Ok,
        built is Err ==> (r matches Err(Error::InternalError(text)) && text@ == built->Err_0@),
        r is Ok ==> (r->Ok_0 is Store <==> built->Ok_0.version > waypoint.version),
        forall|store: StoreWaypoint<'a>, new_waypoint: Waypoint|
            r == Ok::<_, Error>(WaypointStep::Store(store)) && #[trigger] call_ensures(
                StoreWaypoint::new_waypoint,
                (&store,),
                new_waypoint,
            ) ==> built == Ok::<_, String>(new_waypoint),
{
}

/// The request goes on exactly when the waypoint was stored.
pub proof fn the_request_goes_on_once_the_waypoint_is_stored<'a>(
    step: StoreWaypoint<'a>,
    stored: Result<(), Error>,
    r: Result<InitializeSafetyData<'a>, Error>,
)
    requires
        call_ensures(StoreWaypoint::stored, (step, stored), r),
    ensures
        r is Ok <==> stored is Ok,
        stored is Err ==> r->Err_0 == stored->Err_0,
{
}

/// The request goes on exactly when the safety data was stored.
pub proof fn the_request_goes_on_once_the_safety_data_is_stored<'a>(
    step: StoreSafetyData<'a>,
    stored: Result<(), Error>,
    r: Result<InitializeAuthor<'a>, Error>,
)
    requires
        call_ensures(StoreSafetyData::stored, (step, stored), r),
    ensures
        r is Ok <==> stored is Ok,
        stored is Err ==> r->Err_0 == stored->Err_0,
{
}

/// The request gets past the new waypoint: at once, or once it is stored.
pub open spec fn past_waypoint<'a>(
    step: WaypointStep<'a>,
    stored: Result<(), Error>,
    next: InitializeSafetyData<'a>,
) -> bool {
    match step {
        WaypointStep::Store(step) => call_ensures(StoreWaypoint::stored, (step, stored), Ok(next)),
        WaypointStep::Keep(step) => step == next,
    }
}

/// The request gets past the safety data: at once, or once a fresh start is stored.
pub open spec fn past_safety_data<'a>(
    step: EpochStep<'a>,
    stored: Result<(), Error>,
    next: InitializeAuthor<'a>,
) -> bool {
    match step {
        EpochStep::Store(step) => call_ensures(StoreSafetyData::stored, (step, stored), Ok(next)),
        EpochStep::Keep(step) => step == next,
    }
}

/// The request gets from its start to the stored safety data.
pub open spec fn gets_to_safety_data<'a>(
    rules: &SafetyRules,
    waypoint: Waypoint,
    start: InitializeProof,
    ledger_info: &'a LedgerInfo,
    proved: InitializeBoundary<'a>,
    built: Waypoint,
    bounded: WaypointStep<'a>,
    waypoint_stored: Result<(), Error>,
    step: InitializeSafetyData<'a>,
) -> bool {
    &&& call_ensures(SafetyRules::guarded_initialize, (rules, Ok(waypoint)), Ok(start))
    &&& call_ensures(InitializeProof::proof_checked, (start, Ok(ledger_info)), Ok(proved))
    &&& call_ensures(InitializeBoundary::boundary, (proved, Ok(built)), Ok(bounded))
    &&& past_waypoint(bounded, waypoint_stored, step)
}

/// With the safety data that was read, the request goes on exactly when the proof does
/// not lead back behind the data's epoch. Where it leads to any later epoch, safety data
/// of that epoch is to be stored that remembers no round and no vote; where it leads to
/// the same epoch, none is.
pub proof fn safety_data_is_replaced_exactly_in_a_later_epoch<'a>(
    rules: &SafetyRules,
    waypoint: Waypoint,
    start: InitializeProof,
    ledger_info: &'a LedgerInfo,
    proved: InitializeBoundary<'a>,
    built: Waypoint,
    bounded: WaypointStep<'a>,
    waypoint_stored: Result<(), Error>,
    step: InitializeSafetyData<'a>,
    read: Result<SafetyData, Error>,
    r: Result<EpochStep<'a>, Error>,
)
    requires
        gets_to_safety_data(
            rules,
            waypoint,
            start,
            ledger_info,
            proved,
            built,
            bounded,
            waypoint_stored,
            step,
        ),
        call_ensures(InitializeSafetyData::safety_data, (step, read), r),
    ensures
        ledger_info.next_epoch_state is Some,
        r is Ok <==> read is Ok && read->Ok_0.epoch <= ledger_info.next_epoch_state->Some_0.epoch,
        read is Err ==> r is Err && r->Err_0 == read->Err_0,
        read is Ok && r is Err ==> r->Err_0 == Error::WaypointOutOfDate(
            waypoint.version,
            built.version,
            read->Ok_0.epoch,
            ledger_info.next_epoch_state->Some_0.epoch,
        ),
        r is Ok ==> (r->Ok_0 is Store <==> read->Ok_0.epoch
            < ledger_info.next_epoch_state->Some_0.epoch),
        forall|store: StoreSafetyData<'a>, safety_data: &SafetyData|
            r == Ok::<_, Error>(EpochStep::Store(store)) && #[trigger] call_ensures(
                StoreSafetyData::safety_data,
                (&store,),
                safety_data,
            ) ==> {
                &&& safety_data.epoch == ledger_info.next_epoch_state->Some_0.epoch
                &&& safety_data.last_voted_round == 0
                &&& safety_data.preferred_round == 0
                &&& safety_data.one_chain_round == 0
                &&& safety_data.last_vote is None
            },
        waypoint_stored is Err ==> built.version <= waypoint.version,
{
}

/// The request gets from its start to who the validator is.
pub open spec fn gets_to_author<'a>(
    rules: &SafetyRules,
    waypoint: Waypoint,
    start: InitializeProof,
    ledger_info: &'a LedgerInfo,
    proved: InitializeBoundary<'a>,
    built: Waypoint,
    bounded: WaypointStep<'a>,
    waypoint_stored: Result<(), Error>,
    step: InitializeSafetyData<'a>,
    safety_data: SafetyData,
    dated: EpochStep<'a>,
    safety_data_stored: Result<(), Error>,
    next: InitializeAuthor<'a>,
) -> bool {
    &&& gets_to_safety_data(
        rules,
        waypoint,
        start,
        ledger_info,
        proved,
        built,
        bounded,
        waypoint_stored,
        step,
    )
    &&& call_ensures(InitializeSafetyData::safety_data, (step, Ok(safety_data)), Ok(dated))
    &&& past_safety_data(dated, safety_data_stored, next)
}

/// The epoch is what an epoch state holds: its number, its validators and its quorum.
pub open spec fn is_epoch(view: EpochStateView, epoch_state: EpochState) -> bool {
    &&& view.epoch == epoch_state.epoch
    &&& view.verifier.validators == epoch_state.verifier.validators@
    &&& view.verifier.quorum_voting_power == epoch_state.verifier.quorum_voting_power
}

/// The rules are in the epoch that a ledger info leads to, with the configuration that
/// they had.
pub open spec fn moved(before: RulesView, after: RulesView, ledger_info: LedgerInfo) -> bool {
    &&& ledger_info.next_epoch_state is Some
    &&& after.epoch_state is Some
    &&& is_epoch(after.epoch_state->Some_0, ledger_info.next_epoch_state->Some_0)
    &&& after.execution_public_key == before.execution_public_key
    &&& after.export_consensus_key == before.export_consensus_key
}

/// The validators of the epoch that a ledger info leads to.
pub open spec fn next_validators(ledger_info: LedgerInfo) -> Seq<ValidatorInfo> {
    ledger_info.next_epoch_state->Some_0.verifier.validators@
}

/// The rules hold a signer of `key`.
pub open spec fn holds(rules: RulesView, key: PublicKey) -> bool {
    rules.validator_signer is Some && verifying_key(rules.validator_signer->Some_0) == key
}

/// The rules take over the epoch, whatever comes of the key. A validator that is not
/// known is refused and leaves the signer; one that the epoch does not list is refused
/// and has no signer.
pub proof fn the_epoch_is_taken_over<'a>(
    initial: &SafetyRules,
    waypoint: Waypoint,
    start: InitializeProof,
    ledger_info: &'a LedgerInfo,
    proved: InitializeBoundary<'a>,
    built: Waypoint,
    bounded: WaypointStep<'a>,
    waypoint_stored: Result<(), Error>,
    step: InitializeSafetyData<'a>,
    safety_data: SafetyData,
    dated: EpochStep<'a>,
    safety_data_stored: Result<(), Error>,
    next: InitializeAuthor<'a>,
    rules: &mut SafetyRules,
    author: Result<Author, Error>,
    r: Result<KeyStep<'a>, Error>,
)
    requires
        gets_to_author(
            initial,
            waypoint,
            start,
            ledger_info,
            proved,
            built,
            bounded,
            waypoint_stored,
            step,
            safety_data,
            dated,
            safety_data_stored,
            next,
        ),
        call_ensures(SafetyRules::initialize_author, (rules, next, author), r),
    ensures
        moved(old(rules)@, final(rules)@, *ledger_info),
        r is Ok <==> author is Ok && exists|i: int|
            0 <= i < next_validators(*ledger_info).len() && (
            #[trigger] next_validators(*ledger_info)[i]).author.address@ == author->Ok_0.address@,
        author is Err ==> {
            &&& r is Err
            &&& r->Err_0 == author->Err_0
            &&& final(rules)@.validator_signer == old(rules)@.validator_signer
        },
        author is Ok && r is Err ==> {
            &&& r->Err_0 matches Error::ValidatorNotInSet(text)
            &&& text@ == author->Ok_0.address@
            &&& final(rules)@.validator_signer is None
        },
{
    the_listed_key_is_the_last(next_validators(*ledger_info), author->Ok_0.address@);
}

/// Where the epoch lists the validator, the key that counts is the one last listed at its
/// own address. If the rules hold a signer of that key, they keep it. Otherwise they hold
/// none, and exactly that key is exported or, where keys stay in storage, tried out: on the
/// proof's last ledger info, in the validator's name.
pub proof fn the_listed_key_is_asked_for<'a>(
    initial: &SafetyRules,
    waypoint: Waypoint,
    start: InitializeProof,
    ledger_info: &'a LedgerInfo,
    proved: InitializeBoundary<'a>,
    built: Waypoint,
    bounded: WaypointStep<'a>,
    waypoint_stored: Result<(), Error>,
    step: InitializeSafetyData<'a>,
    safety_data: SafetyData,
    dated: EpochStep<'a>,
    safety_data_stored: Result<(), Error>,
    next: InitializeAuthor<'a>,
    rules: &mut SafetyRules,
    author: Author,
    i: int,
    r: Result<KeyStep<'a>, Error>,
)
    requires
        gets_to_author(
            initial,
            waypoint,
            start,
            ledger_info,
            proved,
            built,
            bounded,
            waypoint_stored,
            step,
            safety_data,
            dated,
            safety_data_stored,
            next,
        ),
        last_listed(next_validators(*ledger_info), author.address@, i),
        call_ensures(SafetyRules::initialize_author, (rules, next, Ok(author)), r),
    ensures
        r is Ok,
        ({
            let listed = next_validators(*ledger_info)[i].public_key;
            let held = holds(old(rules)@, listed);
            let export = old(rules)@.export_consensus_key;
            &&& r->Ok_0 is InSet <==> held
            &&& r->Ok_0 is Export <==> !held && export
            &&& r->Ok_0 is Test <==> !held && !export
            &&& held ==> final(rules)@.validator_signer == old(rules)@.validator_signer
            &&& !held ==> final(rules)@.validator_signer is None
            &&& forall|step: ExportKey<'a>, asked: PublicKey|
                r == Ok::<_, Error>(KeyStep::Export(step)) && #[trigger] call_ensures(
                    ExportKey::public_key,
                    (&step,),
                    asked,
                ) ==> asked == listed
            &&& forall|
                step: TestKey<'a>,
                request: SigningRequest<'_, LedgerInfo>,
                signer: &ConfigurableValidatorSigner,
            |
                r == Ok::<_, Error>(KeyStep::Test(step)) && #[trigger] call_ensures(
                    TestKey::request,
                    (&step,),
                    request,
                ) && #[trigger] call_ensures(
                    SigningRequest::<'_, LedgerInfo>::signer,
                    (&request,),
                    signer,
                ) ==> *signer == (ConfigurableValidatorSigner::Handle {
                    author,
                    key_version: listed,
                })
            &&& forall|
                step: TestKey<'a>,
                request: SigningRequest<'_, LedgerInfo>,
                message: &LedgerInfo,
            |
                r == Ok::<_, Error>(KeyStep::Test(step)) && #[trigger] call_ensures(
                    TestKey::request,
                    (&step,),
                    request,
                ) && #[trigger] call_ensures(
                    SigningRequest::<'_, LedgerInfo>::message,
                    (&request,),
                    message,
                ) ==> *message == *ledger_info
        }),
{
    the_listed_key_is_the_last(next_validators(*ledger_info), author.address@);
}

/// An exported key makes the signer, in the validator's name. Without one there is no
/// signer: a key that storage lacks is not found, and any other failure is handed on.
pub proof fn an_exported_key_makes_the_signer<'a>(
    rules: &mut SafetyRules,
    next: InitializeAuthor<'a>,
    author: Author,
    step: ExportKey<'a>,
    there: &mut SafetyRules,
    exported: Result<ConsensusKey, Error>,
    r: Result<(), Error>,
)
    requires
        call_ensures(
            SafetyRules::initialize_author,
            (rules, next, Ok(author)),
            Ok(KeyStep::Export(step)),
        ),
        old(there)@ == final(rules)@,
        call_ensures(SafetyRules::initialize_exported, (there, step, exported), r),
    ensures
        r is Ok <==> exported is Ok,
        final(there)@.epoch_state == old(there)@.epoch_state,
        final(there)@.execution_public_key == old(there)@.execution_public_key,
        final(there)@.export_consensus_key == old(there)@.export_consensus_key,
        exported is Ok ==> final(there)@.validator_signer == Some(
            ConfigurableValidatorSigner::Signer { author, consensus_key: exported->Ok_0 },
        ),
        exported is Err ==> final(there)@.validator_signer is None,
        exported is Err ==> (if exported->Err_0 is SecureStorageMissingDataError {
            &&& r->Err_0 matches Error::ValidatorKeyNotFound(text)
            &&& text@ == exported->Err_0->SecureStorageMissingDataError_0@
        } else {
            r->Err_0 == exported->Err_0
        }),
{
}

/// A key that storage signed with makes the signer, which stands for the key that was
/// tried out. Without a signature there is no signer, and the key is not found.
pub proof fn a_tested_key_makes_the_signer<'a>(
    rules: &mut SafetyRules,
    next: InitializeAuthor<'a>,
    author: Author,
    step: TestKey<'a>,
    request: SigningRequest<'_, LedgerInfo>,
    signer: &ConfigurableValidatorSigner,
    there: &mut SafetyRules,
    tested: Result<Signature, String>,
    r: Result<(), Error>,
)
    requires
        call_ensures(
            SafetyRules::initialize_author,
            (rules, next, Ok(author)),
            Ok(KeyStep::Test(step)),
        ),
        call_ensures(TestKey::request, (&step,), request),
        call_ensures(SigningRequest::<'_, LedgerInfo>::signer, (&request,), signer),
        old(there)@ == final(rules)@,
        call_ensures(SafetyRules::initialize_tested, (there, step, tested), r),
    ensures
        r is Ok <==> tested is Ok,
        final(there)@.epoch_state == old(there)@.epoch_state,
        final(there)@.execution_public_key == old(there)@.execution_public_key,
        final(there)@.export_consensus_key == old(there)@.export_consensus_key,
        tested is Ok ==> final(there)@.validator_signer == Some(*signer) && account(*signer)
            == author,
        tested is Err ==> final(there)@.validator_signer is None,
        tested is Err ==> (r->Err_0 matches Error::ValidatorKeyNotFound(text) && text@
            == tested->Err_0@),
{
}

} // verus!
