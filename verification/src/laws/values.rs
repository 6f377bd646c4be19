//! What the values of the rules are: keys, validators, signers and texts.

use crate::signer::{ConfigurableValidatorSigner, ConsensusKey};
use crate::text::{decimal, digit};
use crate::types::{
    public_key_of, Author, ConsensusState, EpochState, PublicKey, SafetyData, ValidatorInfo,
    ValidatorVerifier, Vote, Waypoint,
};
use vstd::prelude::*;
use vstd::std_specs::cmp::PartialEqSpec;

verus! {

/// The account that a signer names.
pub open spec fn account(signer: ConfigurableValidatorSigner) -> Author {
    match signer {
        ConfigurableValidatorSigner::Signer { author, .. } => author,
        ConfigurableValidatorSigner::Handle { author, .. } => author,
    }
}

/// The key that a signer's signatures verify under: that of its key pair, or the
/// version of the key that it stands for.
pub open spec fn verifying_key(signer: ConfigurableValidatorSigner) -> PublicKey {
    match signer {
        ConfigurableValidatorSigner::Signer { consensus_key, .. } => consensus_key.public_key,
        ConfigurableValidatorSigner::Handle { key_version, .. } => key_version,
    }
}

/// Two authors are the same exactly when their addresses are.
pub proof fn authors_are_told_apart_by_address(a: &Author, b: &Author, r: bool)
    requires
        call_ensures(Author::same, (a, b), r),
    ensures
        r <==> a.address@ == b.address@,
{
}

/// Two keys are equal exactly when they are equal in every byte.
pub proof fn keys_are_equal_in_every_byte(a: PublicKey, b: PublicKey)
    ensures
        a.eq_spec(&b) <==> forall|i: int| 0 <= i < 32 ==> a.bytes[i] == b.bytes[i],
{
    broadcast use vstd::array::group_array_axioms;

    if forall|i: int| 0 <= i < 32 ==> a.bytes[i] == b.bytes[i] {
        assert(a.bytes =~= b.bytes);
    }
}

/// The `i`-th validator is the last one listed at `address`.
pub open spec fn last_listed(validators: Seq<ValidatorInfo>, address: Seq<char>, i: int) -> bool {
    &&& 0 <= i < validators.len()
    &&& validators[i].author.address@ == address
    &&& forall|j: int| i < j < validators.len() ==> validators[j].author.address@ != address
}

/// A validator's key is found exactly when the epoch lists its address, wherever in
/// the list that is, and is the key of the last entry with that address.
pub proof fn a_key_is_found_exactly_when_listed(
    verifier: &ValidatorVerifier,
    author: &Author,
    r: Option<PublicKey>,
)
    requires
        call_ensures(ValidatorVerifier::get_public_key, (verifier, author), r),
    ensures
        r is Some <==> exists|i: int|
            0 <= i < verifier.validators@.len() && (
            #[trigger] verifier.validators@[i]).author.address@ == author.address@,
        forall|i: int| #[trigger]
            last_listed(verifier.validators@, author.address@, i) ==> r == Some(
                verifier.validators@[i].public_key,
            ),
        r is Some ==> exists|i: int| #[trigger]
            last_listed(verifier.validators@, author.address@, i),
{
    the_listed_key_is_the_last(verifier.validators@, author.address@);
}

/// The key listed at an address is that of the last entry with that address, and there
/// is one exactly when there is such an entry.
pub proof fn the_listed_key_is_the_last(validators: Seq<ValidatorInfo>, address: Seq<char>)
    ensures
        public_key_of(validators, address) is Some <==> exists|i: int|
            0 <= i < validators.len() && (#[trigger] validators[i]).author.address@ == address,
        forall|i: int| #[trigger]
            last_listed(validators, address, i) ==> public_key_of(validators, address) == Some(
                validators[i].public_key,
            ),
        public_key_of(validators, address) is Some ==> exists|i: int| #[trigger]
            last_listed(validators, address, i),
    decreases validators.len(),
{
    if validators.len() > 0 {
        let rest = validators.drop_last();
        let last = validators.len() - 1;
        the_listed_key_is_the_last(rest, address);
        if validators[last].author.address@ == address {
            assert(last_listed(validators, address, last));
        } else {
            assert forall|i: int| #[trigger]
                last_listed(validators, address, i) implies last_listed(rest, address, i) by {
                assert(i < last);
                assert forall|j: int| i < j < rest.len() implies rest[j].author.address@
                    != address by {
                    assert(rest[j] == validators[j]);
                }
            }
            assert forall|i: int| #[trigger] last_listed(rest, address, i) implies last_listed(
                validators,
                address,
                i,
            ) by {
                assert forall|j: int| i < j < validators.len() implies validators[j].author.address@
                    != address by {
                    if j < last {
                        assert(validators[j] == rest[j]);
                    }
                }
            }
            if public_key_of(validators, address) is Some {
                let i = choose|i: int|
                    0 <= i < rest.len() && (#[trigger] rest[i]).author.address@ == address;
                assert(validators[i] == rest[i]);
            }
            assert forall|i: int|
                0 <= i < validators.len() && (
                #[trigger] validators[i]).author.address@ == address implies public_key_of(
                validators,
                address,
            ) is Some by {
                assert(rest[i] == validators[i]);
            }
        }
    }
}

/// A copy of an epoch's validators has the same validators in the same order, and the
/// same quorum.
pub proof fn copied_validators_are_the_same(verifier: &ValidatorVerifier, r: ValidatorVerifier)
    requires
        call_ensures(ValidatorVerifier::clone, (verifier,), r),
    ensures
        r.validators@ == verifier.validators@,
        r.quorum_voting_power == verifier.quorum_voting_power,
{
}

/// A copy of an epoch is of the same number, with the same validators and quorum.
pub proof fn a_copied_epoch_is_the_same(epoch_state: &EpochState, r: EpochState)
    requires
        call_ensures(EpochState::clone, (epoch_state,), r),
    ensures
        r.epoch == epoch_state.epoch,
        r.verifier.validators@ == epoch_state.verifier.validators@,
        r.verifier.quorum_voting_power == epoch_state.verifier.quorum_voting_power,
{
}

/// What an epoch stands for is its number, its validators and its quorum.
pub proof fn an_epoch_stands_for_all_it_holds(epoch_state: EpochState)
    ensures
        epoch_state@.epoch == epoch_state.epoch,
        epoch_state@.verifier.validators == epoch_state.verifier.validators@,
        epoch_state@.verifier.quorum_voting_power == epoch_state.verifier.quorum_voting_power,
{
}

/// A signer signs for the account that it was made for.
pub proof fn a_signer_names_its_account(signer: &ConfigurableValidatorSigner, r: &Author)
    requires
        call_ensures(ConfigurableValidatorSigner::author, (signer,), r),
    ensures
        *r == account(*signer),
{
}

/// A signer's signatures verify under the key that it was made with.
pub proof fn a_signer_names_its_key(signer: &ConfigurableValidatorSigner, r: PublicKey)
    requires
        call_ensures(ConfigurableValidatorSigner::public_key, (signer,), r),
    ensures
        r == verifying_key(*signer),
{
}

/// What a signer is made of.
pub proof fn signers_hold_what_they_are_made_of(
    author: Author,
    consensus_key: ConsensusKey,
    signer: ConfigurableValidatorSigner,
    key_version: PublicKey,
    handle: ConfigurableValidatorSigner,
)
    requires
        call_ensures(ConfigurableValidatorSigner::new_signer, (author, consensus_key), signer),
        call_ensures(ConfigurableValidatorSigner::new_handle, (author, key_version), handle),
    ensures
        signer == (ConfigurableValidatorSigner::Signer { author, consensus_key }),
        handle == (ConfigurableValidatorSigner::Handle { author, key_version }),
{
}

/// Safety data and a reported state hold each what they are made of.
pub proof fn data_holds_what_it_is_made_of(
    epoch: u64,
    last_voted_round: u64,
    preferred_round: u64,
    one_chain_round: u64,
    last_vote: Option<Vote>,
    safety_data: SafetyData,
    waypoint: Waypoint,
    in_validator_set: bool,
    state: ConsensusState,
)
    requires
        call_ensures(
            SafetyData::new,
            (epoch, last_voted_round, preferred_round, one_chain_round, last_vote),
            safety_data,
        ),
        call_ensures(ConsensusState::new, (safety_data, waypoint, in_validator_set), state),
    ensures
        safety_data.epoch == epoch,
        safety_data.last_voted_round == last_voted_round,
        safety_data.preferred_round == preferred_round,
        safety_data.one_chain_round == one_chain_round,
        safety_data.last_vote == last_vote,
        state.safety_data == safety_data,
        state.waypoint == waypoint,
        state.in_validator_set == in_validator_set,
{
}

/// The number that a text of decimal digits stands for.
pub open spec fn reads_as(text: Seq<char>) -> int
    decreases text.len(),
{
    if text.len() == 0 {
        0
    } else {
        10 * reads_as(text.drop_last()) + (text.last() as int - '0' as int)
    }
}

/// A number prints in the digits 0 to 9, without leading zeros, and reads back as
/// itself.
pub proof fn numbers_print_in_decimal(n: nat)
    ensures
        reads_as(decimal(n)) == n,
        decimal(n).len() > 0,
        forall|i: int| 0 <= i < decimal(n).len() ==> '0' <= #[trigger] decimal(n)[i] <= '9',
        decimal(n).len() > 1 ==> decimal(n)[0] != '0',
    decreases n,
{
    assert forall|d: nat| d < 10 implies #[trigger] digit(d) as int == '0' as int + d by {}
    if n < 10 {
        assert(decimal(n).drop_last() =~= Seq::<char>::empty());
        assert(reads_as(Seq::<char>::empty()) == 0);
    } else {
        numbers_print_in_decimal(n / 10);
        assert(decimal(n).drop_last() =~= decimal(n / 10));
        if n / 10 < 10 {
            assert(decimal(n)[0] == digit(n / 10));
        } else {
            assert(decimal(n)[0] == decimal(n / 10)[0]);
            assert(decimal(n / 10).len() == decimal(n / 10 / 10).len() + 1);
            numbers_print_in_decimal(n / 10 / 10);
        }
    }
}

} // verus!
