//! Tests for the report-metrics operation: milestone settlement, skip
//! reasons, idempotence, completion, and the failure modes.

use solengage::{
    brand_pay_campaign, create_campaign, update_campaign_metrics, AccountId, Campaign,
    CampaignStatus, ErrorCode, MilestoneSkipReason,
};

fn influencer() -> AccountId {
    AccountId(11)
}

fn brand() -> AccountId {
    AccountId(22)
}

fn oracle() -> AccountId {
    AccountId(33)
}

/// An `Active` campaign with the given budget and a single likes target.
fn active(budget: u64, target_likes: u64) -> Campaign {
    let mut c = create_campaign(
        influencer(),
        brand(),
        oracle(),
        "summer".to_string(),
        "@nick".to_string(),
        "coolbrand".to_string(),
        "#sun".to_string(),
        target_likes,
        0,
        0,
        0,
        budget,
        700,
        5,
    )
    .expect("creation should succeed");
    brand_pay_campaign(&mut c, 6).expect("funding should succeed");
    c
}

#[test]
fn report_pays_each_newly_crossed_milestone() {
    let mut c = active(100, 1000);
    let out = update_campaign_metrics(&mut c, oracle(), 500, 0, 0, 0, 10, 100)
        .expect("report should succeed");
    assert_eq!(out.old_progress, 0);
    assert_eq!(out.new_progress, 50);
    assert!(!out.completed);
    assert_eq!(out.payments.len(), 5);
    for (i, p) in out.payments.iter().enumerate() {
        assert_eq!(p.milestone, i);
        assert_eq!(p.amount, 10);
    }
    assert!(out.skipped.is_empty());
    assert_eq!(c.paid_amount, 50);
    assert_eq!(c.current_likes, 500);
    assert_eq!(c.last_updated, 10);
    assert_eq!(c.status, CampaignStatus::Active);
    assert_eq!(
        c.payment_milestones,
        [true, true, true, true, true, false, false, false, false, false]
    );
}

#[test]
fn report_reaching_full_progress_completes_the_campaign() {
    let mut c = active(100, 1000);
    update_campaign_metrics(&mut c, oracle(), 500, 0, 0, 0, 10, 100)
        .expect("first report should succeed");
    let out = update_campaign_metrics(&mut c, oracle(), 1000, 0, 0, 0, 11, 50)
        .expect("second report should succeed");
    assert_eq!(out.old_progress, 50);
    assert_eq!(out.new_progress, 100);
    assert!(out.completed);
    assert_eq!(out.payments.len(), 5);
    for (i, p) in out.payments.iter().enumerate() {
        assert_eq!(p.milestone, 5 + i);
        assert_eq!(p.amount, 10);
    }
    assert_eq!(c.paid_amount, 100);
    assert_eq!(c.status, CampaignStatus::Completed);
    assert_eq!(c.payment_milestones, [true; 10]);
}

#[test]
fn report_pays_the_milestones_between_old_and_new_progress() {
    let mut c = active(1000, 1000);
    update_campaign_metrics(&mut c, oracle(), 250, 0, 0, 0, 10, 1000)
        .expect("first report should succeed");
    assert_eq!(c.paid_amount, 200);
    let out = update_campaign_metrics(&mut c, oracle(), 550, 0, 0, 0, 11, 800)
        .expect("second report should succeed");
    assert_eq!(out.old_progress, 25);
    assert_eq!(out.new_progress, 55);
    let milestones: Vec<usize> = out.payments.iter().map(|p| p.milestone).collect();
    assert_eq!(milestones, vec![2, 3, 4]);
    for p in &out.payments {
        assert_eq!(p.amount, 100);
    }
    assert_eq!(c.paid_amount, 500);
}

#[test]
fn report_with_identical_metrics_pays_nothing_again() {
    let mut c = active(100, 1000);
    update_campaign_metrics(&mut c, oracle(), 500, 0, 0, 0, 10, 100)
        .expect("first report should succeed");
    let paid_after_first = c.paid_amount;
    let out = update_campaign_metrics(&mut c, oracle(), 500, 0, 0, 0, 11, 50)
        .expect("repeat report should succeed");
    assert!(out.payments.is_empty());
    assert!(out.skipped.is_empty());
    assert_eq!(c.paid_amount, paid_after_first);
    assert_eq!(
        c.payment_milestones,
        [true, true, true, true, true, false, false, false, false, false]
    );
}

#[test]
fn report_accepts_decreasing_metrics_without_paying() {
    let mut c = active(100, 1000);
    update_campaign_metrics(&mut c, oracle(), 500, 0, 0, 0, 10, 100)
        .expect("first report should succeed");
    let out = update_campaign_metrics(&mut c, oracle(), 100, 0, 0, 0, 11, 50)
        .expect("decreasing report should succeed");
    assert!(out.payments.is_empty());
    assert_eq!(out.old_progress, 50);
    assert_eq!(out.new_progress, 10);
    assert_eq!(c.current_likes, 100);
    assert_eq!(c.paid_amount, 50);
}

#[test]
fn report_skips_milestones_the_escrow_cannot_cover() {
    let mut c = active(100, 1000);
    let out = update_campaign_metrics(&mut c, oracle(), 500, 0, 0, 0, 10, 25)
        .expect("report should succeed");
    assert_eq!(out.payments.len(), 2);
    assert_eq!(out.payments[0].milestone, 0);
    assert_eq!(out.payments[1].milestone, 1);
    assert_eq!(c.paid_amount, 20);
    let skipped: Vec<usize> = out.skipped.iter().map(|s| s.milestone).collect();
    assert_eq!(skipped, vec![2, 3, 4]);
    for s in &out.skipped {
        assert_eq!(s.reason, MilestoneSkipReason::TransferFailed);
    }
    assert_eq!(
        c.payment_milestones,
        [true, true, false, false, false, false, false, false, false, false]
    );
}

#[test]
fn report_skips_milestones_with_nothing_owed() {
    let mut c = active(5, 1000);
    let out = update_campaign_metrics(&mut c, oracle(), 500, 0, 0, 0, 10, 5)
        .expect("report should succeed");
    let paid: Vec<(usize, u64)> = out.payments.iter().map(|p| (p.milestone, p.amount)).collect();
    assert_eq!(paid, vec![(1, 1), (3, 1)]);
    let skipped: Vec<usize> = out.skipped.iter().map(|s| s.milestone).collect();
    assert_eq!(skipped, vec![0, 2, 4]);
    for s in &out.skipped {
        assert_eq!(s.reason, MilestoneSkipReason::NothingOwed);
    }
    assert_eq!(c.paid_amount, 2);
}

#[test]
fn report_skips_already_paid_milestone_with_validation_reason() {
    let mut c = active(100, 1000);
    // A record whose first milestone is marked paid although nothing was
    // paid: the safe-payment amount is positive, so the settlement reaches
    // the double-payment guard.
    c.payment_milestones[0] = true;
    let out = update_campaign_metrics(&mut c, oracle(), 100, 0, 0, 0, 10, 100)
        .expect("report should succeed");
    assert!(out.payments.is_empty());
    assert_eq!(out.skipped.len(), 1);
    assert_eq!(out.skipped[0].milestone, 0);
    assert_eq!(
        out.skipped[0].reason,
        MilestoneSkipReason::ValidationFailed(ErrorCode::PaymentAlreadyProcessed)
    );
    assert_eq!(c.paid_amount, 0);
}

#[test]
fn report_rejects_foreign_caller() {
    let mut c = active(100, 1000);
    assert_eq!(
        update_campaign_metrics(&mut c, brand(), 500, 0, 0, 0, 10, 100),
        Err(ErrorCode::UnauthorizedOracle)
    );
    assert_eq!(c.current_likes, 0);
}

#[test]
fn report_rejects_draft_campaign_and_mutates_nothing() {
    let mut c = create_campaign(
        influencer(),
        brand(),
        oracle(),
        "summer".to_string(),
        "@nick".to_string(),
        "coolbrand".to_string(),
        "#sun".to_string(),
        1000,
        0,
        0,
        0,
        100,
        700,
        5,
    )
    .expect("creation should succeed");
    assert_eq!(
        update_campaign_metrics(&mut c, oracle(), 500, 0, 0, 0, 10, 100),
        Err(ErrorCode::CampaignNotActive)
    );
    assert_eq!(c.current_likes, 0);
    assert_eq!(c.paid_amount, 0);
    assert_eq!(c.last_updated, 5);
    assert_eq!(c.status, CampaignStatus::Draft);
    assert_eq!(c.payment_milestones, [false; 10]);
}

#[test]
fn report_rejects_completed_campaign() {
    let mut c = active(100, 1000);
    update_campaign_metrics(&mut c, oracle(), 1000, 0, 0, 0, 10, 100)
        .expect("completing report should succeed");
    assert_eq!(c.status, CampaignStatus::Completed);
    assert_eq!(
        update_campaign_metrics(&mut c, oracle(), 1000, 0, 0, 0, 11, 0),
        Err(ErrorCode::CampaignNotActive)
    );
}

#[test]
fn report_rejects_expired_campaign() {
    let mut c = active(100, 1000);
    assert_eq!(
        update_campaign_metrics(&mut c, oracle(), 500, 0, 0, 0, 700, 100),
        Err(ErrorCode::CampaignExpired)
    );
    assert_eq!(c.current_likes, 0);
    assert_eq!(c.last_updated, 6);
}

#[test]
fn report_fails_on_budget_overflow_and_mutates_nothing() {
    let mut c = active(u64::MAX, 1000);
    assert_eq!(
        update_campaign_metrics(&mut c, oracle(), 100, 0, 0, 0, 10, 100),
        Err(ErrorCode::MathOverflow)
    );
    assert_eq!(c.current_likes, 0);
    assert_eq!(c.paid_amount, 0);
    assert_eq!(c.last_updated, 6);
    assert_eq!(c.status, CampaignStatus::Active);
}

#[test]
fn report_fails_when_paid_exceeds_the_reentered_milestone_target() {
    let mut c = active(100, 1000);
    update_campaign_metrics(&mut c, oracle(), 500, 0, 0, 0, 10, 100)
        .expect("first report should succeed");
    update_campaign_metrics(&mut c, oracle(), 250, 0, 0, 0, 11, 50)
        .expect("decreasing report should succeed");
    assert_eq!(c.paid_amount, 50);
    // Progress dipped to 25% while half the budget is already paid; settling
    // milestone 2 again would subtract 50 from its 30-unit cumulative target.
    assert_eq!(
        update_campaign_metrics(&mut c, oracle(), 550, 0, 0, 0, 12, 50),
        Err(ErrorCode::MathOverflow)
    );
    assert_eq!(c.current_likes, 250);
    assert_eq!(c.paid_amount, 50);
    assert_eq!(c.last_updated, 11);
}

#[test]
fn full_campaign_scenario() {
    // Create with budget 100 and a 1000-likes target, fund, then report half
    // and full progress: 100 units end up paid over milestones 0..10 and the
    // record completes.
    let mut c = create_campaign(
        influencer(),
        brand(),
        oracle(),
        "summer".to_string(),
        "@nick".to_string(),
        "coolbrand".to_string(),
        "#sun".to_string(),
        1000,
        0,
        0,
        0,
        100,
        700,
        5,
    )
    .expect("creation should succeed");
    let funded = brand_pay_campaign(&mut c, 6).expect("funding should succeed");
    assert_eq!(funded, 100);
    assert_eq!(c.status, CampaignStatus::Active);
    let mut vault = funded;

    let out = update_campaign_metrics(&mut c, oracle(), 500, 0, 0, 0, 10, vault)
        .expect("first report should succeed");
    let paid_now: u64 = out.payments.iter().map(|p| p.amount).sum();
    assert_eq!(paid_now, 50);
    assert_eq!(c.paid_amount, 50);
    vault -= paid_now;

    let out = update_campaign_metrics(&mut c, oracle(), 1000, 0, 0, 0, 11, vault)
        .expect("second report should succeed");
    let paid_now: u64 = out.payments.iter().map(|p| p.amount).sum();
    assert_eq!(paid_now, 50);
    vault -= paid_now;
    assert_eq!(vault, 0);
    assert_eq!(c.paid_amount, 100);
    assert!(out.completed);
    assert_eq!(c.status, CampaignStatus::Completed);
    assert_eq!(solengage::close_campaign(&c), Ok(()));
}
