//! Why a request is refused.

use crate::types::Round;
use vstd::prelude::*;

verus! {

/// The reasons for which a request is refused.
#[derive(Debug, PartialEq, Eq)]
pub enum Error {
    /// The epoch given, and the epoch of the safety data.
    IncorrectEpoch(u64, u64),
    /// No round follows this one.
    IncorrectRound(Round),
    /// The round given, and the last one voted in.
    IncorrectLastVotedRound(Round, Round),
    /// The round that the certificate certifies, and the preferred round.
    IncorrectPreferredRound(Round, Round),
    /// What was to be there and is not.
    NotInitialized(String),
    InternalError(String),
    InvalidAccumulatorExtension(String),
    InvalidEpochChangeProof(String),
    /// The ledger info does not end an epoch.
    InvalidLedgerInfo,
    /// The ledger info, which names a block that is already executed.
    InvalidOrderedLedgerInfo(String),
    InvalidProposal(String),
    InvalidQuorumCertificate(String),
    /// The block that was ordered, and the one that was executed.
    InconsistentExecutionResult(String, String),
    /// The storage holds no value under the name asked for.
    SecureStorageMissingDataError(String),
    /// The storage or its signer failed in any other way.
    SecureStorageUnexpectedError(String),
    ValidatorKeyNotFound(String),
    /// The validator, which the epoch does not list.
    ValidatorNotInSet(String),
    VoteProposalSignatureNotFound,
    /// The version of the stored waypoint, that of the proof's, the epoch of the
    /// safety data, and that of the proof.
    WaypointOutOfDate(u64, u64, u64, u64),
}

impl Clone for Error {
    fn clone(&self) -> (r: Self)
        ensures
            r == *self,
    {
        match self {
            Error::IncorrectEpoch(given, stored) => Error::IncorrectEpoch(*given, *stored),
            Error::IncorrectRound(round) => Error::IncorrectRound(*round),
            Error::IncorrectLastVotedRound(round, last) => Error::IncorrectLastVotedRound(
                *round,
                *last,
            ),
            Error::IncorrectPreferredRound(round, preferred) => Error::IncorrectPreferredRound(
                *round,
                *preferred,
            ),
            Error::NotInitialized(text) => Error::NotInitialized(text.clone()),
            Error::InternalError(text) => Error::InternalError(text.clone()),
            Error::InvalidAccumulatorExtension(text) => Error::InvalidAccumulatorExtension(
                text.clone(),
            ),
            Error::InvalidEpochChangeProof(text) => Error::InvalidEpochChangeProof(text.clone()),
            Error::InvalidLedgerInfo => Error::InvalidLedgerInfo,
            Error::InvalidOrderedLedgerInfo(text) => Error::InvalidOrderedLedgerInfo(text.clone()),
            Error::InvalidProposal(text) => Error::InvalidProposal(text.clone()),
            Error::InvalidQuorumCertificate(text) => Error::InvalidQuorumCertificate(text.clone()),
            Error::InconsistentExecutionResult(ordered, executed) =>
                Error::InconsistentExecutionResult(ordered.clone(), executed.clone()),
            Error::SecureStorageMissingDataError(text) => Error::SecureStorageMissingDataError(
                text.clone(),
            ),
            Error::SecureStorageUnexpectedError(text) => Error::SecureStorageUnexpectedError(
                text.clone(),
            ),
            Error::ValidatorKeyNotFound(text) => Error::ValidatorKeyNotFound(text.clone()),
            Error::ValidatorNotInSet(text) => Error::ValidatorNotInSet(text.clone()),
            Error::VoteProposalSignatureNotFound => Error::VoteProposalSignatureNotFound,
            Error::WaypointOutOfDate(stored, proved, current, next) => Error::WaypointOutOfDate(
                *stored,
                *proved,
                *current,
                *next,
            ),
        }
    }
}

/// An error with its texts as sequences of characters.
pub enum ErrorView {
    IncorrectEpoch(u64, u64),
    IncorrectRound(Round),
    IncorrectLastVotedRound(Round, Round),
    IncorrectPreferredRound(Round, Round),
    NotInitialized(Seq<char>),
    InternalError(Seq<char>),
    InvalidAccumulatorExtension(Seq<char>),
    InvalidEpochChangeProof(Seq<char>),
    InvalidLedgerInfo,
    InvalidOrderedLedgerInfo(Seq<char>),
    InvalidProposal(Seq<char>),
    InvalidQuorumCertificate(Seq<char>),
    InconsistentExecutionResult(Seq<char>, Seq<char>),
    SecureStorageMissingDataError(Seq<char>),
    SecureStorageUnexpectedError(Seq<char>),
    ValidatorKeyNotFound(Seq<char>),
    ValidatorNotInSet(Seq<char>),
    VoteProposalSignatureNotFound,
    WaypointOutOfDate(u64, u64, u64, u64),
}

impl View for Error {
    type V = ErrorView;

    open spec fn view(&self) -> ErrorView {
        match *self {
            Error::IncorrectEpoch(given, stored) => ErrorView::IncorrectEpoch(given, stored),
            Error::IncorrectRound(round) => ErrorView::IncorrectRound(round),
            Error::IncorrectLastVotedRound(round, last) => ErrorView::IncorrectLastVotedRound(
                round,
                last,
            ),
            Error::IncorrectPreferredRound(round, preferred) => ErrorView::IncorrectPreferredRound(
                round,
                preferred,
            ),
            Error::NotInitialized(text) => ErrorView::NotInitialized(text@),
            Error::InternalError(text) => ErrorView::InternalError(text@),
            Error::InvalidAccumulatorExtension(text) => ErrorView::InvalidAccumulatorExtension(
                text@,
            ),
            Error::InvalidEpochChangeProof(text) => ErrorView::InvalidEpochChangeProof(text@),
            Error::InvalidLedgerInfo => ErrorView::InvalidLedgerInfo,
            Error::InvalidOrderedLedgerInfo(text) => ErrorView::InvalidOrderedLedgerInfo(text@),
            Error::InvalidProposal(text) => ErrorView::InvalidProposal(text@),
            Error::InvalidQuorumCertificate(text) => ErrorView::InvalidQuorumCertificate(text@),
            Error::InconsistentExecutionResult(ordered, executed) =>
                ErrorView::InconsistentExecutionResult(ordered@, executed@),
            Error::SecureStorageMissingDataError(text) =>
                ErrorView::SecureStorageMissingDataError(text@),
            Error::SecureStorageUnexpectedError(text) => ErrorView::SecureStorageUnexpectedError(
                text@,
            ),
            Error::ValidatorKeyNotFound(text) => ErrorView::ValidatorKeyNotFound(text@),
            Error::ValidatorNotInSet(text) => ErrorView::ValidatorNotInSet(text@),
            Error::VoteProposalSignatureNotFound => ErrorView::VoteProposalSignatureNotFound,
            Error::WaypointOutOfDate(stored, proved, current, next) =>
                ErrorView::WaypointOutOfDate(stored, proved, current, next),
        }
    }
}

/// A result with its error as what the error stands for.
pub open spec fn viewed<T>(result: Result<T, Error>) -> Result<T, ErrorView> {
    match result {
        Ok(value) => Ok(value),
        Err(error) => Err(error@),
    }
}

/// The outcome of an outside check, whose failure is known by its text alone.
pub open spec fn told<T>(result: Result<T, String>) -> Result<T, Seq<char>> {
    match result {
        Ok(value) => Ok(value),
        Err(text) => Err(text@),
    }
}

/// What is decided where a check comes first: its refusal, or else `rest`.
pub open spec fn after<T>(check: Result<(), ErrorView>, rest: Result<T, ErrorView>) -> Result<
    T,
    ErrorView,
> {
    match check {
        Ok(_) => rest,
        Err(error) => Err(error),
    }
}

} // verus!
