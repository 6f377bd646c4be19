//! The rules by which a validator of a two-chain consensus decides what it may
//! sign: its own proposals, commit votes, and what it votes for.
//!
//! The library decides; it reads no storage, checks no signature and signs
//! nothing itself. A request that needs the outside runs in steps. Each step is a
//! value that says what to ask next, takes the answer, and either refuses or
//! turns into the next step. A later step can only be made from the one before it.
//! So the requests to sign that the steps of a proposal or of a commit vote hand
//! out exist only once the rules for them are met. While a request to initialize
//! waits for the validator's key, the rules hold no signer.
//!
//! - [`types`], [`signer`], [`error`], [`text`]: the values that the rules read
//!   and give.
//! - [`safety_rules`]: the state of the rules, and the rules that requests share.
//! - [`initialize`], [`consensus_state`], [`sign_proposal`], [`sign_commit_vote`],
//!   [`verify_proposal`]: one request each.
//! - [`queries`]: the public interface, which logs every request.
//! - [`rounds`]: what to report of the rounds that a request has raised.
//! - [`laws`]: what holds of all this together, and what each request comes to.

pub mod consensus_state;
pub mod error;
pub mod initialize;
pub mod laws;
pub mod queries;
pub mod rounds;
pub mod safety_rules;
pub mod sign_commit_vote;
pub mod sign_proposal;
pub mod signer;
pub mod text;
pub mod types;
pub mod verify_proposal;
