//! Signing commit votes: that a block which a quorum ordered was executed with
//! a given result.
//!
//! The request runs in steps: it takes whether the executed block is the ordered
//! one, then whether the quorum's signatures verify, then the signature.

use crate::error::{after, told, Error, ErrorView};
use crate::safety_rules::{epoch_state_of, qc_check, signer_of, RulesView, SafetyRules};
use crate::signer::SigningRequest;
use crate::types::{BlockInfo, LedgerInfo, Signature, ValidatorVerifier};
use vstd::prelude::*;

verus! {

/// The ordered ledger info names a block that is not yet executed.
pub open spec fn ordered_check(ordered: LedgerInfo) -> Result<(), ErrorView> {
    if ordered.commit_info.ordered_only {
        Ok(())
    } else {
        Err(ErrorView::InvalidOrderedLedgerInfo(ordered.text@))
    }
}

/// The executed ledger info is a result of executing the ordered one.
/// `consistent` is whether the blocks that the two commit match but for the
/// execution.
pub open spec fn execution_check(
    ordered: LedgerInfo,
    executed: LedgerInfo,
    consistent: bool,
) -> Result<(), ErrorView> {
    if consistent {
        Ok(())
    } else {
        Err(
            ErrorView::InconsistentExecutionResult(
                ordered.commit_info.text@,
                executed.commit_info.text@,
            ),
        )
    }
}

/// Whether a commit vote may be signed, given whether the executed block is the
/// ordered one, and what checking the quorum's signatures on the ordered ledger
/// info gave.
pub open spec fn sign_commit_vote_decision(
    rules: RulesView,
    ordered: LedgerInfo,
    executed: LedgerInfo,
    consistent: bool,
    check: Result<(), Seq<char>>,
) -> Result<(), ErrorView> {
    match signer_of(rules) {
        Err(error) => Err(error),
        Ok(_) => after(
            ordered_check(ordered),
            after(execution_check(ordered, executed, consistent), qc_check(rules, check)),
        ),
    }
}

/// A request to commit what is ordered, which waits to know whether the executed
/// block is the ordered one.
#[must_use]
pub struct CommitVoteExecution<'a> {
    rules: &'a SafetyRules,
    ordered: &'a LedgerInfo,
    executed: &'a LedgerInfo,
}

/// A consistent execution result, which waits for the quorum's signatures on
/// what was ordered to be checked.
#[must_use]
pub struct CommitVoteQuorum<'a> {
    rules: &'a SafetyRules,
    ordered: &'a LedgerInfo,
    executed: &'a LedgerInfo,
    verifier: &'a ValidatorVerifier,
}

/// An execution result that every rule allows to commit, which waits for its
/// signature.
#[must_use]
pub struct CommitVoteSigning<'a> {
    rules: &'a SafetyRules,
    ordered: &'a LedgerInfo,
    executed: &'a LedgerInfo,
    request: SigningRequest<'a, LedgerInfo>,
}

impl SafetyRules {
    /// Starts to sign `new_ledger_info`, the result of executing the block that
    /// `ledger_info` orders.
    pub fn guarded_sign_commit_vote<'a>(
        &'a self,
        ledger_info: &'a LedgerInfo,
        new_ledger_info: &'a LedgerInfo,
    ) -> (r: Result<CommitVoteExecution<'a>, Error>)
        ensures
            match r {
                Ok(next) => {
                    &&& signer_of(self@) is Ok
                    &&& self@.validator_signer is Some
                    &&& self@.epoch_state is Some
                    &&& ledger_info.commit_info.ordered_only
                    &&& ordered_check(*ledger_info) == Ok::<_, ErrorView>(())
                    &&& next.spec_rules() == self@
                    &&& next.spec_ordered() == *ledger_info
                    &&& next.spec_executed() == *new_ledger_info
                },
                Err(error) => {
                    &&& self@.validator_signer is None || !ledger_info.commit_info.ordered_only
                    &&& error@ == if self@.validator_signer is None {
                        ErrorView::NotInitialized("validator_signer"@)
                    } else {
                        ErrorView::InvalidOrderedLedgerInfo(ledger_info.text@)
                    }
                    &&& forall|consistent, check| #[trigger]
                        sign_commit_vote_decision(
                            self@,
                            *ledger_info,
                            *new_ledger_info,
                            consistent,
                            check,
                        ) == Err::<(), _>(error@)
                },
            },
    {
        self.signer()?;
        if !ledger_info.commit_info.ordered_only {
            return Err(Error::InvalidOrderedLedgerInfo(ledger_info.text.clone()));
        }
        Ok(
            CommitVoteExecution {
                rules: self,
                ordered: ledger_info,
                executed: new_ledger_info,
            },
        )
    }
}

impl<'a> CommitVoteExecution<'a> {
    pub closed spec fn spec_rules(self) -> RulesView {
        self.rules@
    }

    pub closed spec fn spec_ordered(self) -> LedgerInfo {
        *self.ordered
    }

    pub closed spec fn spec_executed(self) -> LedgerInfo {
        *self.executed
    }

    #[verifier::type_invariant]
    closed spec fn inv(self) -> bool {
        &&& signer_of(self.rules@) is Ok
        &&& self.rules@.epoch_state is Some
        &&& ordered_check(*self.ordered) is Ok
    }

    /// The ordered block.
    pub fn ordered_block(&self) -> (r: &'a BlockInfo)
        ensures
            *r == self.spec_ordered().commit_info,
    {
        &self.ordered.commit_info
    }

    /// The executed block, which is to match the ordered one but for the
    /// execution.
    pub fn executed_block(&self) -> (r: &'a BlockInfo)
        ensures
            *r == self.spec_executed().commit_info,
    {
        &self.executed.commit_info
    }

    /// Goes on with whether the two match.
    pub fn execution_matched(self, consistent: bool) -> (r: Result<CommitVoteQuorum<'a>, Error>)
        ensures
            match r {
                Ok(next) => {
                    &&& consistent
                    &&& execution_check(self.spec_ordered(), self.spec_executed(), consistent)
                        == Ok::<_, ErrorView>(())
                    &&& epoch_state_of(self.spec_rules()) is Ok
                    &&& next.spec_rules() == self.spec_rules()
                    &&& next.spec_ordered() == self.spec_ordered()
                    &&& next.spec_executed() == self.spec_executed()
                },
                Err(error) => {
                    &&& !consistent
                    &&& error@ == ErrorView::InconsistentExecutionResult(
                        self.spec_ordered().commit_info.text@,
                        self.spec_executed().commit_info.text@,
                    )
                    &&& forall|check| #[trigger]
                        sign_commit_vote_decision(
                            self.spec_rules(),
                            self.spec_ordered(),
                            self.spec_executed(),
                            consistent,
                            check,
                        ) == Err::<(), _>(error@)
                },
            },
    {
        proof {
            use_type_invariant(&self);
        }
        if !consistent {
            return Err(
                Error::InconsistentExecutionResult(
                    self.ordered.commit_info.text.clone(),
                    self.executed.commit_info.text.clone(),
                ),
            );
        }
        let verifier = &self.rules.epoch_state()?.verifier;
        Ok(
            CommitVoteQuorum {
                rules: self.rules,
                ordered: self.ordered,
                executed: self.executed,
                verifier,
            },
        )
    }
}

impl<'a> CommitVoteQuorum<'a> {
    pub closed spec fn spec_rules(self) -> RulesView {
        self.rules@
    }

    pub closed spec fn spec_ordered(self) -> LedgerInfo {
        *self.ordered
    }

    pub closed spec fn spec_executed(self) -> LedgerInfo {
        *self.executed
    }

    #[verifier::type_invariant]
    closed spec fn inv(self) -> bool {
        &&& signer_of(self.rules@) is Ok
        &&& ordered_check(*self.ordered) is Ok
        &&& self.rules@.epoch_state matches Some(epoch_state)
        &&& epoch_state.verifier == self.verifier@
    }

    /// The ledger info whose signatures are to be checked.
    pub fn ledger_info(&self) -> (r: &'a LedgerInfo)
        ensures
            *r == self.spec_ordered(),
    {
        self.ordered
    }

    /// The validators to check them against.
    pub fn validators(&self) -> (r: &'a ValidatorVerifier)
        ensures
            self.spec_rules().epoch_state matches Some(epoch_state) && r@
                == epoch_state.verifier,
    {
        proof {
            use_type_invariant(self);
        }
        self.verifier
    }

    /// Goes on with what checking the signatures gave.
    pub fn signatures_checked(self, check: Result<(), String>) -> (r: Result<
        CommitVoteSigning<'a>,
        Error,
    >)
        ensures
            ({
                let decision = sign_commit_vote_decision(
                    self.spec_rules(),
                    self.spec_ordered(),
                    self.spec_executed(),
                    true,
                    told(check),
                );
                match r {
                    Ok(next) => {
                        &&& check is Ok
                        &&& decision == Ok::<_, ErrorView>(())
                        &&& next.spec_rules() == self.spec_rules()
                        &&& next.spec_ordered() == self.spec_ordered()
                        &&& next.spec_executed() == self.spec_executed()
                    },
                    Err(error) => {
                        &&& check matches Err(text)
                        &&& error@ == ErrorView::InvalidQuorumCertificate(text@)
                        &&& decision == Err::<(), _>(error@)
                    },
                }
            }),
    {
        proof {
            use_type_invariant(&self);
        }
        self.rules.verify_qc(check)?;
        let request = self.rules.sign(self.executed)?;
        Ok(
            CommitVoteSigning {
                rules: self.rules,
                ordered: self.ordered,
                executed: self.executed,
                request,
            },
        )
    }
}

impl<'a> CommitVoteSigning<'a> {
    pub closed spec fn spec_rules(self) -> RulesView {
        self.rules@
    }

    pub closed spec fn spec_ordered(self) -> LedgerInfo {
        *self.ordered
    }

    pub closed spec fn spec_executed(self) -> LedgerInfo {
        *self.executed
    }

    #[verifier::type_invariant]
    closed spec fn inv(self) -> bool {
        &&& sign_commit_vote_decision(
            self.rules@,
            *self.ordered,
            *self.executed,
            true,
            Ok(()),
        ) is Ok
        &&& signer_of(self.rules@) == Ok::<_, ErrorView>(self.request.spec_signer())
        &&& self.request.spec_message() == *self.executed
    }

    /// What to ask the signer for.
    pub fn request(&self) -> (r: &SigningRequest<'a, LedgerInfo>)
        ensures
            signer_of(self.spec_rules()) == Ok::<_, ErrorView>(r.spec_signer()),
            r.spec_message() == self.spec_executed(),
    {
        proof {
            use_type_invariant(self);
        }
        &self.request
    }

    /// Ends with the signer's answer.
    pub fn signed(self, signature: Result<Signature, Error>) -> (r: Result<Signature, Error>)
        ensures
            r == signature,
            sign_commit_vote_decision(
                self.spec_rules(),
                self.spec_ordered(),
                self.spec_executed(),
                true,
                Ok(()),
            ) == Ok::<_, ErrorView>(()),
    {
        proof {
            use_type_invariant(&self);
        }
        signature
    }
}

} // verus!
