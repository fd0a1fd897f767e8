//! Tests for the campaign record's derived computations: progress,
//! safe-payment amounts, payment validation, and the display helpers.

use solengage::{AccountId, Campaign, CampaignStatus, ErrorCode};

fn record(
    targets: (u64, u64, u64, u64),
    currents: (u64, u64, u64, u64),
    budget: u64,
    paid: u64,
    milestones: [bool; 10],
    status: CampaignStatus,
) -> Campaign {
    Campaign {
        influencer: AccountId(1),
        brand: AccountId(2),
        name: "camp".to_string(),
        nickname: "nick".to_string(),
        brand_name: "brand".to_string(),
        hashtag: "#tag".to_string(),
        target_likes: targets.0,
        target_comments: targets.1,
        target_views: targets.2,
        target_shares: targets.3,
        current_likes: currents.0,
        current_comments: currents.1,
        current_views: currents.2,
        current_shares: currents.3,
        amount_usdc: budget,
        paid_amount: paid,
        payment_milestones: milestones,
        deadline: 1_000,
        status,
        oracle: AccountId(3),
        created_at: 0,
        last_updated: 0,
    }
}

#[test]
fn progress_single_metric_half() {
    let c = record((1000, 0, 0, 0), (500, 0, 0, 0), 100, 0, [false; 10], CampaignStatus::Active);
    assert_eq!(c.get_progress_percentage(), 50);
}

#[test]
fn progress_caps_overperforming_metric() {
    let c = record((1000, 0, 0, 0), (1500, 0, 0, 0), 100, 0, [false; 10], CampaignStatus::Active);
    assert_eq!(c.get_progress_percentage(), 100);
}

#[test]
fn progress_averages_multiple_metrics() {
    let c = record((1000, 100, 0, 0), (500, 50, 0, 0), 100, 0, [false; 10], CampaignStatus::Active);
    assert_eq!(c.get_progress_percentage(), 50);
}

#[test]
fn progress_mixed_metrics() {
    let c = record(
        (1000, 100, 0, 0),
        (1000, 50, 0, 0),
        100,
        0,
        [false; 10],
        CampaignStatus::Active,
    );
    assert_eq!(c.get_progress_percentage(), 95);
}

#[test]
fn progress_zero_targets_is_zero() {
    let c = record((0, 0, 0, 0), (500, 50, 0, 0), 100, 0, [false; 10], CampaignStatus::Active);
    assert_eq!(c.get_progress_percentage(), 0);
}

#[test]
fn progress_huge_metrics_do_not_overflow() {
    let c = record(
        (u64::MAX, u64::MAX, u64::MAX, u64::MAX),
        (u64::MAX, u64::MAX, u64::MAX, u64::MAX),
        100,
        0,
        [false; 10],
        CampaignStatus::Active,
    );
    assert_eq!(c.get_progress_percentage(), 100);
}

#[test]
fn safe_payment_first_milestone() {
    let c = record((1000, 0, 0, 0), (500, 0, 0, 0), 100, 0, [false; 10], CampaignStatus::Active);
    assert_eq!(c.calculate_safe_payment(0), Ok(10));
    assert_eq!(c.calculate_safe_payment(4), Ok(50));
    assert_eq!(c.calculate_safe_payment(9), Ok(100));
}

#[test]
fn safe_payment_subtracts_already_paid() {
    let c = record((1000, 0, 0, 0), (500, 0, 0, 0), 100, 30, [false; 10], CampaignStatus::Active);
    assert_eq!(c.calculate_safe_payment(3), Ok(10));
    assert_eq!(c.calculate_safe_payment(4), Ok(20));
}

#[test]
fn safe_payment_rounds_down() {
    let c = record((1000, 0, 0, 0), (500, 0, 0, 0), 5, 0, [false; 10], CampaignStatus::Active);
    assert_eq!(c.calculate_safe_payment(0), Ok(0));
    assert_eq!(c.calculate_safe_payment(1), Ok(1));
}

#[test]
fn safe_payment_rejects_milestone_out_of_range() {
    let c = record((1000, 0, 0, 0), (500, 0, 0, 0), 100, 0, [false; 10], CampaignStatus::Active);
    assert_eq!(c.calculate_safe_payment(10), Err(ErrorCode::InvalidMilestone));
    assert_eq!(c.calculate_safe_payment(usize::MAX), Err(ErrorCode::InvalidMilestone));
}

#[test]
fn safe_payment_overflows_on_huge_budget() {
    let c = record(
        (1000, 0, 0, 0),
        (500, 0, 0, 0),
        u64::MAX,
        0,
        [false; 10],
        CampaignStatus::Active,
    );
    assert_eq!(c.calculate_safe_payment(0), Err(ErrorCode::MathOverflow));
}

#[test]
fn safe_payment_underflows_when_paid_exceeds_cumulative_target() {
    let c = record((1000, 0, 0, 0), (500, 0, 0, 0), 100, 50, [false; 10], CampaignStatus::Active);
    assert_eq!(c.calculate_safe_payment(0), Err(ErrorCode::MathOverflow));
}

#[test]
fn validate_payment_accepts_justified_payment() {
    let c = record((1000, 0, 0, 0), (500, 0, 0, 0), 100, 0, [false; 10], CampaignStatus::Active);
    assert_eq!(c.validate_payment_safety(0, 10), Ok(()));
    assert_eq!(c.validate_payment_safety(4, 50), Ok(()));
}

#[test]
fn validate_payment_rejects_milestone_out_of_range() {
    let c = record((1000, 0, 0, 0), (500, 0, 0, 0), 100, 0, [false; 10], CampaignStatus::Active);
    assert_eq!(c.validate_payment_safety(10, 10), Err(ErrorCode::InvalidMilestone));
}

#[test]
fn validate_payment_rejects_double_payment() {
    let mut milestones = [false; 10];
    milestones[0] = true;
    let c = record((1000, 0, 0, 0), (500, 0, 0, 0), 100, 10, milestones, CampaignStatus::Active);
    assert_eq!(c.validate_payment_safety(0, 10), Err(ErrorCode::PaymentAlreadyProcessed));
}

#[test]
fn validate_payment_rejects_zero_amount() {
    let c = record((1000, 0, 0, 0), (500, 0, 0, 0), 100, 0, [false; 10], CampaignStatus::Active);
    assert_eq!(c.validate_payment_safety(0, 0), Err(ErrorCode::InsufficientFunds));
}

#[test]
fn validate_payment_rejects_budget_overrun() {
    let c = record((1000, 0, 0, 0), (500, 0, 0, 0), 100, 95, [false; 10], CampaignStatus::Active);
    assert_eq!(c.validate_payment_safety(4, 10), Err(ErrorCode::PaymentExceedsBudget));
}

#[test]
fn validate_payment_saturates_budget_comparison() {
    let c = record(
        (1000, 0, 0, 0),
        (1000, 0, 0, 0),
        u64::MAX,
        u64::MAX - 1,
        [false; 10],
        CampaignStatus::Active,
    );
    // The saturating comparison keeps u64::MAX - 1 + 2 at u64::MAX, which
    // still fits the budget, so the check that fails is not the budget one.
    assert_eq!(c.validate_payment_safety(9, 2), Ok(()));
}

#[test]
fn validate_payment_rejects_insufficient_progress() {
    let c = record((1000, 0, 0, 0), (500, 0, 0, 0), 100, 0, [false; 10], CampaignStatus::Active);
    assert_eq!(c.validate_payment_safety(5, 10), Err(ErrorCode::InsufficientFunds));
}

#[test]
fn status_names() {
    assert_eq!(CampaignStatus::Draft.as_str(), "Draft");
    assert_eq!(CampaignStatus::Active.as_str(), "Active");
    assert_eq!(CampaignStatus::Completed.as_str(), "Completed");
    assert_eq!(CampaignStatus::Cancelled.as_str(), "Cancelled");
}

#[test]
fn error_messages() {
    assert_eq!(ErrorCode::MathOverflow.message(), "Math overflow occurred.");
    assert_eq!(
        ErrorCode::NoTargetsSet.message(),
        "At least one target metric must be set."
    );
    assert_eq!(
        ErrorCode::PaymentAlreadyProcessed.message(),
        "Payment already processed for this milestone."
    );
    assert_eq!(ErrorCode::CampaignNotActive.message(), "Campaign is not active.");
}

#[test]
fn campaign_clone_is_exact() {
    let c = record((1000, 5, 0, 0), (500, 3, 0, 0), 100, 20, [false; 10], CampaignStatus::Active);
    let d = c.clone();
    assert_eq!(d.name, c.name);
    assert_eq!(d.target_likes, c.target_likes);
    assert_eq!(d.current_comments, c.current_comments);
    assert_eq!(d.paid_amount, c.paid_amount);
    assert_eq!(d.status, c.status);
    assert_eq!(d.payment_milestones, c.payment_milestones);
}
