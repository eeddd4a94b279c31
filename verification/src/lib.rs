//! The safety rules of a validator in a HotStuff-style consensus protocol:
//! the engine that decides whether the validator signs a vote, a proposal,
//! a timeout or a commit vote, and that keeps its voting state.
//!
//! - `crypto`, `ledger`, `accumulator` and `consensus` hold the values that
//!   the rules read, as plain data, and the calls into the cryptography and
//!   the ledger types that the rules rest on.
//! - `voting_power` adds up the voting powers of a validator set; `text`
//!   writes the numbers into the texts of errors.
//! - `storage` and `signer` hold what a validator keeps and signs with.
//! - `safety_rules` holds the engine and the voting rules; `vote`, `sign`,
//!   `two_chain` and `initialize` hold its operations, each with a
//!   specification of its answer and of the engine after it; `operations`
//!   names them as the protocol does.
//! - `laws` states what holds of the operations together, and proves it.

pub mod accumulator;
pub mod consensus;
pub mod consensus_state;
pub mod crypto;
pub mod error;
pub mod initialize;
pub mod laws;
pub mod ledger;
pub mod operations;
pub mod safety_rules;
pub mod sign;
pub mod signer;
pub mod storage;
pub mod text;
pub mod two_chain;
pub mod vote;
pub mod voting_power;
