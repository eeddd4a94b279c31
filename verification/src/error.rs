use vstd::prelude::*;

verus! {

/// Why an operation of the safety rules was refused.
#[derive(Clone, Debug, PartialEq, Eq)]
pub enum Error {
    /// A part of the engine that `initialize` sets up is missing; the text names it.
    NotInitialized(String),
    /// The epoch of the input, and the epoch of the safety data.
    IncorrectEpoch(u64, u64),
    /// The round that has no successor.
    IncorrectRound(u64),
    /// The round of the input, and the last voted round.
    IncorrectLastVotedRound(u64, u64),
    /// The round of the input, and the preferred round.
    IncorrectPreferredRound(u64, u64),
    InvalidProposal(String),
    InvalidQuorumCertificate(String),
    InvalidAccumulatorExtension(String),
    InvalidLedgerInfo,
    InvalidOrderedLedgerInfo,
    InconsistentExecutionResult,
    InvalidEpochChangeProof,
    VoteProposalSignatureNotFound,
    ValidatorNotInSet,
    ValidatorKeyNotFound,
    /// The storage holds no value under the name that the text gives.
    SecureStorageMissingDataError(String),
    InternalError(String),
    InvalidTimeoutCertificate(String),
    /// Round, round of its quorum certificate, round of the timeout
    /// certificate, highest certified round among the timeouts.
    NotSafeToVote(u64, u64, u64, u64),
    /// Round, round of its quorum certificate, round of the timeout
    /// certificate, highest certified round seen so far.
    NotSafeToTimeout(u64, u64, u64, u64),
}

/// An `Error` with each text as a sequence of characters.
pub enum ErrorView {
    NotInitialized(Seq<char>),
    IncorrectEpoch(u64, u64),
    IncorrectRound(u64),
    IncorrectLastVotedRound(u64, u64),
    IncorrectPreferredRound(u64, u64),
    InvalidProposal(Seq<char>),
    InvalidQuorumCertificate(Seq<char>),
    InvalidAccumulatorExtension(Seq<char>),
    InvalidLedgerInfo,
    InvalidOrderedLedgerInfo,
    InconsistentExecutionResult,
    InvalidEpochChangeProof,
    VoteProposalSignatureNotFound,
    ValidatorNotInSet,
    ValidatorKeyNotFound,
    SecureStorageMissingDataError(Seq<char>),
    InternalError(Seq<char>),
    InvalidTimeoutCertificate(Seq<char>),
    NotSafeToVote(u64, u64, u64, u64),
    NotSafeToTimeout(u64, u64, u64, u64),
}

impl View for Error {
    type V = ErrorView;

    open spec fn view(&self) -> ErrorView {
        match self {
            Error::NotInitialized(s) => ErrorView::NotInitialized(s@),
            Error::IncorrectEpoch(a, b) => ErrorView::IncorrectEpoch(*a, *b),
            Error::IncorrectRound(a) => ErrorView::IncorrectRound(*a),
            Error::IncorrectLastVotedRound(a, b) => ErrorView::IncorrectLastVotedRound(*a, *b),
            Error::IncorrectPreferredRound(a, b) => ErrorView::IncorrectPreferredRound(*a, *b),
            Error::InvalidProposal(s) => ErrorView::InvalidProposal(s@),
            Error::InvalidQuorumCertificate(s) => ErrorView::InvalidQuorumCertificate(s@),
            Error::InvalidAccumulatorExtension(s) => ErrorView::InvalidAccumulatorExtension(s@),
            Error::InvalidLedgerInfo => ErrorView::InvalidLedgerInfo,
            Error::InvalidOrderedLedgerInfo => ErrorView::InvalidOrderedLedgerInfo,
            Error::InconsistentExecutionResult => ErrorView::InconsistentExecutionResult,
            Error::InvalidEpochChangeProof => ErrorView::InvalidEpochChangeProof,
            Error::VoteProposalSignatureNotFound => ErrorView::VoteProposalSignatureNotFound,
            Error::ValidatorNotInSet => ErrorView::ValidatorNotInSet,
            Error::ValidatorKeyNotFound => ErrorView::ValidatorKeyNotFound,
            Error::SecureStorageMissingDataError(s) => ErrorView::SecureStorageMissingDataError(s@),
            Error::InternalError(s) => ErrorView::InternalError(s@),
            Error::InvalidTimeoutCertificate(s) => ErrorView::InvalidTimeoutCertificate(s@),
            Error::NotSafeToVote(a, b, c, d) => ErrorView::NotSafeToVote(*a, *b, *c, *d),
            Error::NotSafeToTimeout(a, b, c, d) => ErrorView::NotSafeToTimeout(*a, *b, *c, *d),
        }
    }
}

/// A result with its error taken by its view.
pub open spec fn outcome<T>(r: Result<T, Error>) -> Result<T, ErrorView> {
    match r {
        Ok(value) => Ok(value),
        Err(error) => Err(error@),
    }
}

/// A result with the text of its error taken by its view.
pub open spec fn outcome_text<T>(r: Result<T, String>) -> Result<T, Seq<char>> {
    match r {
        Ok(value) => Ok(value),
        Err(text) => Err(text@),
    }
}

} // verus!
