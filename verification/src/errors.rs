//! Error kinds raised by the campaign operations.
//!
//! The kinds fall into four families: validation (bad input at call time),
//! authorization (caller does not match a stored identity), state (operation
//! against a record in the wrong status or past its deadline), and payment
//! (per-milestone checks and budget arithmetic). Every rejection carries a
//! specific kind so that a caller can tell "fix the input" from "wrong time"
//! from "should never happen".

use vstd::prelude::*;

verus! {

/// One error kind per distinct rejection of the campaign operations.
#[derive(Clone, Copy, Debug, PartialEq, Eq, Structural)]
pub enum ErrorCode {
    /// Caller is not the authorized oracle for this campaign.
    UnauthorizedOracle,
    /// Campaign name exceeds the 50 character limit.
    NameTooLong,
    /// Influencer nickname exceeds the 50 character limit.
    NicknameTooLong,
    /// Brand name exceeds the 50 character limit.
    BrandNameTooLong,
    /// Campaign hashtag exceeds the 50 character limit.
    HashtagTooLong,
    /// Campaign budget is zero.
    InvalidAmount,
    /// Campaign deadline is not in the future.
    InvalidDeadline,
    /// All four target metrics are zero.
    NoTargetsSet,
    /// Attempted to fund a campaign that is not in `Draft` status.
    CampaignNotDraft,
    /// The campaign deadline has passed.
    CampaignExpired,
    /// Attempted to report metrics on a campaign that is not `Active`.
    CampaignNotActive,
    /// Caller is not the authorized brand for this campaign.
    UnauthorizedBrand,
    /// Cannot cancel a campaign that already completed.
    CampaignAlreadyCompleted,
    /// An arithmetic operation on amounts would overflow or underflow.
    MathOverflow,
    /// Milestone index outside the valid range 0..10.
    InvalidMilestone,
    /// The milestone was already paid.
    PaymentAlreadyProcessed,
    /// Payment amount is zero, or progress does not justify the milestone.
    InsufficientFunds,
    /// The payment would push the total paid beyond the budget.
    PaymentExceedsBudget,
    /// The campaign must be `Completed` before it can be closed.
    CampaignNotInTerminalState,
}

impl ErrorCode {
    /// The human-readable message of this error kind.
    pub open spec fn spec_message(self) -> Seq<char> {
        match self {
            ErrorCode::UnauthorizedOracle => "You are not the authorized oracle for this campaign."@,
            ErrorCode::NameTooLong => "Campaign name is too long (max 50 characters)."@,
            ErrorCode::NicknameTooLong => "Nickname is too long (max 50 characters)."@,
            ErrorCode::BrandNameTooLong => "Brand name is too long (max 50 characters)."@,
            ErrorCode::HashtagTooLong => "Hashtag is too long (max 50 characters)."@,
            ErrorCode::InvalidAmount => "Amount must be greater than 0."@,
            ErrorCode::InvalidDeadline => "Deadline must be in the future."@,
            ErrorCode::NoTargetsSet => "At least one target metric must be set."@,
            ErrorCode::CampaignNotDraft => "Campaign is not in draft status."@,
            ErrorCode::CampaignExpired => "Campaign has expired."@,
            ErrorCode::CampaignNotActive => "Campaign is not active."@,
            ErrorCode::UnauthorizedBrand => "You are not the authorized brand for this campaign."@,
            ErrorCode::CampaignAlreadyCompleted => "Campaign is already completed."@,
            ErrorCode::MathOverflow => "Math overflow occurred."@,
            ErrorCode::InvalidMilestone => "Invalid payment milestone."@,
            ErrorCode::PaymentAlreadyProcessed => "Payment already processed for this milestone."@,
            ErrorCode::InsufficientFunds => "Insufficient funds for payment."@,
            ErrorCode::PaymentExceedsBudget => "Payment amount exceeds campaign budget."@,
            ErrorCode::CampaignNotInTerminalState => "Campaign must be in Completed or Cancelled status."@,
        }
    }

    /// The human-readable message of this error kind.
    pub fn message(&self) -> (m: &'static str)
        ensures
            m@ == self.spec_message(),
    {
        match self {
            ErrorCode::UnauthorizedOracle => "You are not the authorized oracle for this campaign.",
            ErrorCode::NameTooLong => "Campaign name is too long (max 50 characters).",
            ErrorCode::NicknameTooLong => "Nickname is too long (max 50 characters).",
            ErrorCode::BrandNameTooLong => "Brand name is too long (max 50 characters).",
            ErrorCode::HashtagTooLong => "Hashtag is too long (max 50 characters).",
            ErrorCode::InvalidAmount => "Amount must be greater than 0.",
            ErrorCode::InvalidDeadline => "Deadline must be in the future.",
            ErrorCode::NoTargetsSet => "At least one target metric must be set.",
            ErrorCode::CampaignNotDraft => "Campaign is not in draft status.",
            ErrorCode::CampaignExpired => "Campaign has expired.",
            ErrorCode::CampaignNotActive => "Campaign is not active.",
            ErrorCode::UnauthorizedBrand => "You are not the authorized brand for this campaign.",
            ErrorCode::CampaignAlreadyCompleted => "Campaign is already completed.",
            ErrorCode::MathOverflow => "Math overflow occurred.",
            ErrorCode::InvalidMilestone => "Invalid payment milestone.",
            ErrorCode::PaymentAlreadyProcessed => "Payment already processed for this milestone.",
            ErrorCode::InsufficientFunds => "Insufficient funds for payment.",
            ErrorCode::PaymentExceedsBudget => "Payment amount exceeds campaign budget.",
            ErrorCode::CampaignNotInTerminalState => "Campaign must be in Completed or Cancelled status.",
        }
    }
}

} // verus!
