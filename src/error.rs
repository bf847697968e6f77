use vstd::prelude::*;

verus! {

/// Every failure an operation of the protocol can report.
#[derive(Clone, Copy, PartialEq, Eq, Structural, Debug)]
pub enum ErrorCode {
    QuestionTooLong,
    DescriptionTooLong,
    SourceTooLong,
    EvidenceTooLong,
    InsufficientLiquidity,
    InvalidEndTime,
    EndTimeTooFar,
    MarketNotActive,
    MarketEnded,
    MarketNotEnded,
    BetTooSmall,
    MathOverflow,
    MathUnderflow,
    DivisionByZero,
    QuorumNotReached,
    NoSupermajority,
    AlreadyVoted,
    MarketNotResolved,
    ProposalNotActive,
    VotingEnded,
    VotingNotEnded,
    OutcomeNotSet,
    InvalidSupermajority,
}

/// The human-readable message attached to each error.
pub open spec fn error_message(e: ErrorCode) -> &'static str {
    match e {
        ErrorCode::QuestionTooLong => "Question too long (max 200 characters)",
        ErrorCode::DescriptionTooLong => "Description too long (max 500 characters)",
        ErrorCode::SourceTooLong => "Resolution source too long (max 200 characters)",
        ErrorCode::EvidenceTooLong => "Evidence too long (max 500 characters)",
        ErrorCode::InsufficientLiquidity => "Insufficient initial liquidity",
        ErrorCode::InvalidEndTime => "Invalid end time (must be in future)",
        ErrorCode::EndTimeTooFar => "End time too far (max 1 year)",
        ErrorCode::MarketNotActive => "Market not active",
        ErrorCode::MarketEnded => "Market has ended",
        ErrorCode::MarketNotEnded => "Market not ended yet",
        ErrorCode::BetTooSmall => "Bet too small (min 1 USDC)",
        ErrorCode::MathOverflow => "Math overflow",
        ErrorCode::MathUnderflow => "Math underflow",
        ErrorCode::DivisionByZero => "Division by zero",
        ErrorCode::QuorumNotReached => "Quorum not reached",
        ErrorCode::NoSupermajority => "No supermajority",
        ErrorCode::AlreadyVoted => "Already voted",
        ErrorCode::MarketNotResolved => "Market not resolved",
        ErrorCode::ProposalNotActive => "Proposal not active",
        ErrorCode::VotingEnded => "Voting period ended",
        ErrorCode::VotingNotEnded => "Voting period not ended yet",
        ErrorCode::OutcomeNotSet => "Outcome not set",
        ErrorCode::InvalidSupermajority => "Invalid supermajority percentage",
    }
}

impl ErrorCode {
    /// The human-readable message attached to each error.
    pub fn message(&self) -> (r: &'static str)
        ensures
            r == error_message(*self),
    {
        match self {
            ErrorCode::QuestionTooLong => "Question too long (max 200 characters)",
            ErrorCode::DescriptionTooLong => "Description too long (max 500 characters)",
            ErrorCode::SourceTooLong => "Resolution source too long (max 200 characters)",
            ErrorCode::EvidenceTooLong => "Evidence too long (max 500 characters)",
            ErrorCode::InsufficientLiquidity => "Insufficient initial liquidity",
            ErrorCode::InvalidEndTime => "Invalid end time (must be in future)",
            ErrorCode::EndTimeTooFar => "End time too far (max 1 year)",
            ErrorCode::MarketNotActive => "Market not active",
            ErrorCode::MarketEnded => "Market has ended",
            ErrorCode::MarketNotEnded => "Market not ended yet",
            ErrorCode::BetTooSmall => "Bet too small (min 1 USDC)",
            ErrorCode::MathOverflow => "Math overflow",
            ErrorCode::MathUnderflow => "Math underflow",
            ErrorCode::DivisionByZero => "Division by zero",
            ErrorCode::QuorumNotReached => "Quorum not reached",
            ErrorCode::NoSupermajority => "No supermajority",
            ErrorCode::AlreadyVoted => "Already voted",
            ErrorCode::MarketNotResolved => "Market not resolved",
            ErrorCode::ProposalNotActive => "Proposal not active",
            ErrorCode::VotingEnded => "Voting period ended",
            ErrorCode::VotingNotEnded => "Voting period not ended yet",
            ErrorCode::OutcomeNotSet => "Outcome not set",
            ErrorCode::InvalidSupermajority => "Invalid supermajority percentage",
        }
    }
}

} // verus!
