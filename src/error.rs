use vstd::prelude::*;

verus! {

/// Broad classes of failure; every `MarketError` belongs to exactly one.
#[derive(Clone, Copy, Debug, PartialEq, Eq, Structural)]
pub enum ErrorKind {
    /// Malformed input: oversized text, an amount out of range, an end time out of bounds.
    Validation,
    /// The market or bet is in the wrong lifecycle state for the operation.
    State,
    /// The caller is not the party the operation requires.
    Authorization,
    /// Checked arithmetic left the representable range or divided by zero.
    ArithmeticOverflow,
    /// The proposer cannot cover the bond the proposal needs.
    InsufficientBond,
}

/// Every way an operation on a market can fail.
#[derive(Clone, Copy, Debug, PartialEq, Eq, Structural)]
pub enum MarketError {
    QuestionTooLong,
    DescriptionTooLong,
    CategoryTooLong,
    EndTimeInPast,
    EndTimeTooFar,
    MarketNotActive,
    MarketNotEnded,
    MarketEnded,
    BetTooSmall,
    BetTooLarge,
    UnauthorizedResolver,
    MarketNotResolved,
    AlreadyClaimed,
    NotBetOwner,
    NotCreator,
    HasBets,
    MathOverflow,
    InsufficientBond,
    NoResolutionProposed,
    AlreadyFinalized,
    ChallengePeriodActive,
    ChallengePeriodEnded,
    ResolutionNotFinalized,
}

impl MarketError {
    pub open spec fn spec_kind(self) -> ErrorKind {
        match self {
            MarketError::QuestionTooLong
            | MarketError::DescriptionTooLong
            | MarketError::CategoryTooLong
            | MarketError::EndTimeInPast
            | MarketError::EndTimeTooFar
            | MarketError::BetTooSmall
            | MarketError::BetTooLarge => ErrorKind::Validation,
            MarketError::UnauthorizedResolver
            | MarketError::NotBetOwner
            | MarketError::NotCreator => ErrorKind::Authorization,
            MarketError::MathOverflow => ErrorKind::ArithmeticOverflow,
            MarketError::InsufficientBond => ErrorKind::InsufficientBond,
            _ => ErrorKind::State,
        }
    }

    /// The class this error belongs to.
    pub fn kind(&self) -> (r: ErrorKind)
        ensures
            r == self.spec_kind(),
    {
        match self {
            MarketError::QuestionTooLong
            | MarketError::DescriptionTooLong
            | MarketError::CategoryTooLong
            | MarketError::EndTimeInPast
            | MarketError::EndTimeTooFar
            | MarketError::BetTooSmall
            | MarketError::BetTooLarge => ErrorKind::Validation,
            MarketError::UnauthorizedResolver
            | MarketError::NotBetOwner
            | MarketError::NotCreator => ErrorKind::Authorization,
            MarketError::MathOverflow => ErrorKind::ArithmeticOverflow,
            MarketError::InsufficientBond => ErrorKind::InsufficientBond,
            _ => ErrorKind::State,
        }
    }

    /// The human-readable message for this error.
    pub fn message(&self) -> (r: &'static str) {
        match self {
            MarketError::QuestionTooLong => "Question too long (max 200 characters)",
            MarketError::DescriptionTooLong => "Description too long (max 500 characters)",
            MarketError::CategoryTooLong => "Category too long (max 50 characters)",
            MarketError::EndTimeInPast => "End time must be in the future",
            MarketError::EndTimeTooFar => "End time too far in the future (max 30 days)",
            MarketError::MarketNotActive => "Market is not active",
            MarketError::MarketNotEnded => "Market has not ended yet",
            MarketError::MarketEnded => "Market already ended",
            MarketError::BetTooSmall => "Bet too small (minimum 1 USDC)",
            MarketError::BetTooLarge => "Bet too large (maximum 10,000 USDC)",
            MarketError::UnauthorizedResolver => "Unauthorized resolver",
            MarketError::MarketNotResolved => "Market not resolved yet",
            MarketError::AlreadyClaimed => "Already claimed",
            MarketError::NotBetOwner => "Not the bet owner",
            MarketError::NotCreator => "Not the market creator",
            MarketError::HasBets => "Market has bets, cannot cancel",
            MarketError::MathOverflow => "Math overflow",
            MarketError::InsufficientBond => "Insufficient bond for resolution",
            MarketError::NoResolutionProposed => "No resolution has been proposed yet",
            MarketError::AlreadyFinalized => "Resolution already finalized",
            MarketError::ChallengePeriodActive => "Challenge period still active",
            MarketError::ChallengePeriodEnded => "Challenge period already over",
            MarketError::ResolutionNotFinalized => "Resolution not finalized yet",
        }
    }
}

} // verus!
