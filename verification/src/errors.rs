//! The closed error taxonomy.
//!
//! Each variant names exactly one precondition failure, never a transient
//! condition: callers can react precisely, and every operation that fails
//! with one of these has had no effect at all.

use vstd::prelude::*;

verus! {

/// Every way an escrow operation can be refused.
#[derive(Clone, Copy, Debug, PartialEq, Eq, Structural)]
pub enum HopeRiseError {
    /// The request does not carry the identity the record expects.
    Unauthorized,
    /// The campaign has been closed.
    CampaignNotActive,
    /// The campaign is still open, so the refund path is not available.
    CampaignStillActive,
    /// The campaign's deadline has passed.
    CampaignEnded,
    /// The campaign's deadline has not passed yet.
    CampaignNotEnded,
    /// The funding goal was met, so contributions are not refundable.
    GoalWasMet,
    /// The funding goal has not been met, so the creator may not withdraw.
    GoalNotMet,
    /// Withdrawal is not allowed at this time.
    WithdrawalNotAllowed,
    /// This contributor already reclaimed their deposit.
    RefundAlreadyClaimed,
    /// No deposit of this contributor is on record for this campaign.
    NoContribution,
    /// The milestone was already marked complete.
    MilestoneAlreadyCompleted,
    /// The campaign has not raised the milestone's target amount yet.
    MilestoneTargetNotReached,
    /// The campaign already holds the maximum number of milestones.
    MaxMilestonesReached,
    /// The campaign title exceeds its maximum length.
    TitleTooLong,
    /// The short description exceeds its maximum length.
    DescriptionTooLong,
    /// A reference string (cover image or story) exceeds its maximum length.
    UrlTooLong,
    /// The milestone title exceeds its maximum length.
    MilestoneTitleTooLong,
    /// The funding goal must be greater than zero.
    InvalidFundingGoal,
    /// A contribution must be greater than zero.
    InvalidContributionAmount,
    /// The campaign duration lies outside the accepted range of days.
    InvalidDuration,
    /// A checked addition would have overflowed a counter or balance.
    ArithmeticOverflow,
    /// The vault holds nothing to pay out.
    InsufficientFunds,
    /// The deposit names the wrong token mint.
    InvalidMint,
    /// The deposit names a token account with the wrong mint or owner.
    InvalidTokenAccount,
}

} // verus!
