//! Reporting fresh metric values and settling newly crossed milestones.
//!
//! The oracle overwrites the four reported metrics; every 10%-milestone newly
//! crossed between the old and the new progress is then settled in ascending
//! order. Each milestone is paid only if something is owed for it, the
//! payment-safety checks pass, and the escrow balance covers the amount; a
//! milestone that cannot be paid is skipped with its reason and the remaining
//! milestones are still attempted. Reaching 100% completes the campaign.
//!
//! The whole per-milestone loop is captured by the [`settle`] specification;
//! the executable operation is proved to produce exactly that settlement.

use vstd::arithmetic::div_mod::{lemma_div_is_ordered, lemma_div_multiples_vanish};
use vstd::prelude::*;

use crate::errors::ErrorCode;
use crate::state::campaign::{
    compute_progress, cumulative_milestone_target, milestone_fraction, milestone_mul_overflows,
    spec_safe_payment, spec_validate_payment_vals, AccountId, Campaign,
};
use crate::state::campaign_status::CampaignStatus;

verus! {

/// One milestone payment owed to the influencer: `amount` out of the
/// campaign's escrow balance for milestone `milestone`.
#[derive(Clone, Copy, Debug, PartialEq, Eq, Structural)]
pub struct MilestonePayment {
    /// Milestone index in `0..10`.
    pub milestone: usize,
    /// Amount transferred for this milestone.
    pub amount: u64,
}

/// Why a newly crossed milestone was skipped instead of paid.
#[derive(Clone, Copy, Debug, PartialEq, Eq, Structural)]
pub enum MilestoneSkipReason {
    /// Nothing is owed for this milestone (its cumulative target is already
    /// covered by what was paid).
    NothingOwed,
    /// One of the payment-safety checks failed.
    ValidationFailed(ErrorCode),
    /// The escrow balance could not cover the payment.
    TransferFailed,
}

/// One milestone that was crossed by a report but not paid, with the reason.
#[derive(Clone, Copy, Debug, PartialEq, Eq, Structural)]
pub struct SkippedMilestone {
    /// Milestone index in `0..10`.
    pub milestone: usize,
    /// Why the milestone was skipped.
    pub reason: MilestoneSkipReason,
}

/// The partial result of one report-metrics call: which milestones were paid
/// in this call, which were skipped and why, the progress before and after
/// the report, and whether the campaign completed.
#[derive(Debug, PartialEq, Eq)]
pub struct MetricsOutcome {
    /// The milestone payments owed to the influencer, in ascending milestone
    /// order.
    pub payments: Vec<MilestonePayment>,
    /// The crossed milestones that were skipped, in ascending milestone
    /// order, each with its reason.
    pub skipped: Vec<SkippedMilestone>,
    /// Progress before the report was applied.
    pub old_progress: u64,
    /// Progress after the report was applied.
    pub new_progress: u64,
    /// The report reached 100%: the campaign is now `Completed` and its
    /// record may be reclaimed.
    pub completed: bool,
}

/// The state of the milestone settlement loop: the running payment totals,
/// the milestone bitmap, the escrow balance, the accumulated payment and skip
/// records, and whether the loop aborted on an arithmetic failure.
pub ghost struct Settlement {
    /// Cumulative amount paid so far.
    pub paid: u64,
    /// Milestone bitmap.
    pub milestones: Seq<bool>,
    /// Remaining escrow balance.
    pub vault: u64,
    /// Payments made so far, in ascending milestone order.
    pub payments: Seq<MilestonePayment>,
    /// Milestones skipped so far, in ascending milestone order.
    pub skipped: Seq<SkippedMilestone>,
    /// The safe-payment computation overflowed: the whole report fails with
    /// `MathOverflow` and no state change.
    pub failed: bool,
}

/// Settles milestones `k`, `k+1`, ..., `end - 1` in order against a campaign
/// with the given budget and post-report `progress`.
///
/// For each milestone: compute the safe payment amount; skip the milestone
/// when nothing is owed or a payment-safety check fails; pay it when the
/// escrow balance covers the amount (the amount moves from the balance to the
/// paid total and the bitmap is set), and skip it with `TransferFailed`
/// otherwise. An overflow or underflow in the safe-payment computation aborts
/// the whole settlement.
pub open spec fn settle(
    budget: u64,
    progress: int,
    paid: u64,
    milestones: Seq<bool>,
    vault: u64,
    k: int,
    end: int,
    payments: Seq<MilestonePayment>,
    skipped: Seq<SkippedMilestone>,
) -> Settlement
    decreases end - k,
{
    if k < 0 || k >= end || k >= 10 {
        Settlement { paid, milestones, vault, payments, skipped, failed: false }
    } else if milestone_mul_overflows(budget, k) || paid > cumulative_milestone_target(budget, k) {
        Settlement { paid, milestones, vault, payments, skipped, failed: true }
    } else {
        let amount = spec_safe_payment(budget, paid, k);
        if amount == 0 {
            settle(
                budget,
                progress,
                paid,
                milestones,
                vault,
                k + 1,
                end,
                payments,
                skipped.push(
                    SkippedMilestone {
                        milestone: k as usize,
                        reason: MilestoneSkipReason::NothingOwed,
                    },
                ),
            )
        } else {
            match spec_validate_payment_vals(
                budget,
                paid,
                milestones[k],
                progress,
                k,
                amount as u64,
            ) {
                Err(e) => settle(
                    budget,
                    progress,
                    paid,
                    milestones,
                    vault,
                    k + 1,
                    end,
                    payments,
                    skipped.push(
                        SkippedMilestone {
                            milestone: k as usize,
                            reason: MilestoneSkipReason::ValidationFailed(e),
                        },
                    ),
                ),
                Ok(_) => {
                    if vault >= amount {
                        settle(
                            budget,
                            progress,
                            (paid + amount) as u64,
                            milestones.update(k, true),
                            (vault - amount) as u64,
                            k + 1,
                            end,
                            payments.push(
                                MilestonePayment { milestone: k as usize, amount: amount as u64 },
                            ),
                            skipped,
                        )
                    } else {
                        settle(
                            budget,
                            progress,
                            paid,
                            milestones,
                            vault,
                            k + 1,
                            end,
                            payments,
                            skipped.push(
                                SkippedMilestone {
                                    milestone: k as usize,
                                    reason: MilestoneSkipReason::TransferFailed,
                                },
                            ),
                        )
                    }
                },
            }
        }
    }
}

/// Which error, if any, rejects a report before anything is computed: the
/// caller must be the stored oracle, the campaign must be `Active`, and its
/// deadline must lie in the future.
pub open spec fn spec_update_check(c: Campaign, caller: AccountId, now: i64) -> Option<ErrorCode> {
    if caller != c.oracle {
        Some(ErrorCode::UnauthorizedOracle)
    } else if !(c.status is Active) {
        Some(ErrorCode::CampaignNotActive)
    } else if now >= c.deadline {
        Some(ErrorCode::CampaignExpired)
    } else {
        None
    }
}

/// The record with the four reported metrics and the update timestamp
/// overwritten.
pub open spec fn spec_with_metrics(
    c: Campaign,
    likes: u64,
    comments: u64,
    views: u64,
    shares: u64,
    now: i64,
) -> Campaign {
    Campaign {
        current_likes: likes,
        current_comments: comments,
        current_views: views,
        current_shares: shares,
        last_updated: now,
        ..c
    }
}

/// Everything one report-metrics call decides, as a function of the record
/// and the call inputs.
pub ghost struct UpdateResult {
    /// The error the call fails with, if any; a failed call changes nothing.
    pub err: Option<ErrorCode>,
    /// `paid_amount` after the call.
    pub paid: u64,
    /// Milestone bitmap after the call.
    pub milestones: Seq<bool>,
    /// The milestone payments of this call, in ascending milestone order.
    pub payments: Seq<MilestonePayment>,
    /// The skipped milestones of this call, in ascending milestone order.
    pub skipped: Seq<SkippedMilestone>,
    /// Progress before the report.
    pub old_progress: int,
    /// Progress after the report.
    pub new_progress: int,
    /// The report reached 100%.
    pub completed: bool,
}

/// The complete specification of one report-metrics call.
///
/// A rejected call (wrong caller, wrong status, past deadline, or an
/// arithmetic failure inside the settlement) changes nothing. An accepted
/// call overwrites the metrics, settles every milestone index in
/// `[old_progress / 10, new_progress / 10)` via [`settle`], and completes the
/// campaign when the new progress reaches 100.
pub open spec fn spec_update_campaign_metrics(
    c: Campaign,
    caller: AccountId,
    likes: u64,
    comments: u64,
    views: u64,
    shares: u64,
    now: i64,
    vault_balance: u64,
) -> UpdateResult {
    let updated = spec_with_metrics(c, likes, comments, views, shares, now);
    let old_p = c.spec_progress();
    let new_p = updated.spec_progress();
    match spec_update_check(c, caller, now) {
        Some(e) => UpdateResult {
            err: Some(e),
            paid: c.paid_amount,
            milestones: c.payment_milestones@,
            payments: Seq::empty(),
            skipped: Seq::empty(),
            old_progress: old_p,
            new_progress: new_p,
            completed: false,
        },
        None => {
            let st = settle(
                c.amount_usdc,
                new_p,
                c.paid_amount,
                c.payment_milestones@,
                vault_balance,
                old_p / 10,
                new_p / 10,
                Seq::empty(),
                Seq::empty(),
            );
            if st.failed {
                UpdateResult {
                    err: Some(ErrorCode::MathOverflow),
                    paid: c.paid_amount,
                    milestones: c.payment_milestones@,
                    payments: Seq::empty(),
                    skipped: Seq::empty(),
                    old_progress: old_p,
                    new_progress: new_p,
                    completed: false,
                }
            } else {
                UpdateResult {
                    err: None,
                    paid: st.paid,
                    milestones: st.milestones,
                    payments: st.payments,
                    skipped: st.skipped,
                    old_progress: old_p,
                    new_progress: new_p,
                    completed: new_p >= 100,
                }
            }
        },
    }
}

/// How a successful report changes the stored record: metrics and timestamp
/// overwritten, the settled payment total and milestone bitmap committed,
/// status moved to `Completed` exactly when the report reached 100%, and
/// every other field untouched.
pub open spec fn spec_update_applied(
    pre: Campaign,
    likes: u64,
    comments: u64,
    views: u64,
    shares: u64,
    now: i64,
    u: UpdateResult,
    post: Campaign,
) -> bool {
    &&& post.influencer == pre.influencer
    &&& post.brand == pre.brand
    &&& post.oracle == pre.oracle
    &&& post.name == pre.name
    &&& post.nickname == pre.nickname
    &&& post.brand_name == pre.brand_name
    &&& post.hashtag == pre.hashtag
    &&& post.target_likes == pre.target_likes
    &&& post.target_comments == pre.target_comments
    &&& post.target_views == pre.target_views
    &&& post.target_shares == pre.target_shares
    &&& post.amount_usdc == pre.amount_usdc
    &&& post.deadline == pre.deadline
    &&& post.created_at == pre.created_at
    &&& post.current_likes == likes
    &&& post.current_comments == comments
    &&& post.current_views == views
    &&& post.current_shares == shares
    &&& post.last_updated == now
    &&& post.paid_amount == u.paid
    &&& post.payment_milestones@ == u.milestones
    &&& post.status == (if u.completed {
        CampaignStatus::Completed
    } else {
        CampaignStatus::Active
    })
}

/// The cumulative milestone target never exceeds the budget: paying a
/// milestone can never demand more than the whole budget.
pub proof fn lemma_cumulative_le_budget(budget: u64, k: int)
    requires
        0 <= k < 10,
    ensures
        0 <= cumulative_milestone_target(budget, k) <= budget,
{
    assert(10 <= milestone_fraction(k) <= 100);
    assert(budget * milestone_fraction(k) <= budget * 100 && budget * milestone_fraction(k) >= 0)
        by (nonlinear_arith)
        requires 10 <= milestone_fraction(k) <= 100 && budget >= 0;
    lemma_div_is_ordered(0, budget * milestone_fraction(k), 100);
    lemma_div_is_ordered(budget * milestone_fraction(k), budget * 100, 100);
    lemma_div_multiples_vanish(budget as int, 100);
    assert(budget * 100 == 100 * (budget as int));
}

/// The sum of the amounts of a payment list.
pub open spec fn payments_total(payments: Seq<MilestonePayment>) -> int
    decreases payments.len(),
{
    if payments.len() == 0 {
        0
    } else {
        payments_total(payments.drop_last()) + payments.last().amount
    }
}

/// The milestone bitmap only ever gains entries, payments are only made for
/// milestones that were still unmarked when the settlement started, every
/// payment is positive and lies in the settled range, the paid total never
/// shrinks, and value is conserved: whatever the paid total gains, the escrow
/// balance loses, and it is exactly the sum of the recorded payments. This
/// holds for every settlement, well-formed or not.
pub proof fn lemma_settle_monotone(
    budget: u64,
    progress: int,
    paid: u64,
    ms: Seq<bool>,
    vault: u64,
    k: int,
    end: int,
    payments: Seq<MilestonePayment>,
    skipped: Seq<SkippedMilestone>,
)
    requires
        ms.len() == 10,
    ensures
        ({
            let st = settle(budget, progress, paid, ms, vault, k, end, payments, skipped);
            &&& st.milestones.len() == 10
            &&& st.paid >= paid
            &&& st.vault <= vault
            &&& vault - st.vault == st.paid - paid
            &&& payments_total(st.payments) - payments_total(payments) == st.paid - paid
            &&& (forall|i: int| 0 <= i < 10 && ms[i] ==> st.milestones[i])
            &&& (forall|i: int| 0 <= i < 10 && st.milestones[i] && !ms[i] ==> k <= i < end)
            &&& st.payments.len() >= payments.len()
            &&& (forall|j: int| #![auto]
                0 <= j < payments.len() ==> st.payments[j] == payments[j])
            &&& (forall|j: int| #![auto]
                payments.len() <= j < st.payments.len() ==> {
                    &&& k <= st.payments[j].milestone < end
                    &&& st.payments[j].milestone < 10
                    &&& !ms[st.payments[j].milestone as int]
                    &&& st.milestones[st.payments[j].milestone as int]
                    &&& st.payments[j].amount > 0
                })
        }),
    decreases end - k,
{
    let st = settle(budget, progress, paid, ms, vault, k, end, payments, skipped);
    if k < 0 || k >= end || k >= 10 {
    } else if milestone_mul_overflows(budget, k) || paid > cumulative_milestone_target(
        budget,
        k,
    ) {
    } else {
        let amount = spec_safe_payment(budget, paid, k);
        if amount == 0 {
            lemma_settle_monotone(
                budget,
                progress,
                paid,
                ms,
                vault,
                k + 1,
                end,
                payments,
                skipped.push(
                    SkippedMilestone {
                        milestone: k as usize,
                        reason: MilestoneSkipReason::NothingOwed,
                    },
                ),
            );
        } else {
            match spec_validate_payment_vals(budget, paid, ms[k], progress, k, amount as u64) {
                Err(e) => {
                    lemma_settle_monotone(
                        budget,
                        progress,
                        paid,
                        ms,
                        vault,
                        k + 1,
                        end,
                        payments,
                        skipped.push(
                            SkippedMilestone {
                                milestone: k as usize,
                                reason: MilestoneSkipReason::ValidationFailed(e),
                            },
                        ),
                    );
                },
                Ok(_) => {
                    if vault >= amount {
                        let ms2 = ms.update(k, true);
                        let p = MilestonePayment { milestone: k as usize, amount: amount as u64 };
                        let pm = payments.push(p);
                        assert(pm.drop_last() =~= payments);
                        assert(pm.last() == p);
                        assert(payments_total(pm) == payments_total(payments) + p.amount);
                        lemma_settle_monotone(
                            budget,
                            progress,
                            (paid + amount) as u64,
                            ms2,
                            (vault - amount) as u64,
                            k + 1,
                            end,
                            pm,
                            skipped,
                        );
                        assert(forall|i: int| 0 <= i < 10 && ms[i] ==> ms2[i]);
                        assert(forall|i: int|
                            0 <= i < 10 && st.milestones[i] && !ms[i] && i != k ==> !ms2[i]);
                        assert(pm.len() == payments.len() + 1);
                        assert forall|j: int| #![auto]
                            0 <= j < payments.len() implies st.payments[j] == payments[j] by {
                            assert(pm[j] == payments[j]);
                        }
                        assert(pm[payments.len() as int] == p);
                        assert(st.payments[payments.len() as int] == p);
                        assert forall|j: int| #![auto]
                            payments.len() <= j < st.payments.len() implies {
                            &&& k <= st.payments[j].milestone < end
                            &&& st.payments[j].milestone < 10
                            &&& !ms[st.payments[j].milestone as int]
                            &&& st.milestones[st.payments[j].milestone as int]
                            &&& st.payments[j].amount > 0
                        } by {
                            if j == payments.len() {
                                assert(st.payments[j] == p);
                                assert(!ms[k]);
                                assert(ms2[k]);
                                assert(st.milestones[k]);
                            } else {
                                assert(pm.len() <= j < st.payments.len());
                                assert(k + 1 <= st.payments[j].milestone < end);
                                assert(!ms2[st.payments[j].milestone as int]);
                                assert(st.payments[j].milestone != k);
                            }
                        }
                    } else {
                        lemma_settle_monotone(
                            budget,
                            progress,
                            paid,
                            ms,
                            vault,
                            k + 1,
                            end,
                            payments,
                            skipped.push(
                                SkippedMilestone {
                                    milestone: k as usize,
                                    reason: MilestoneSkipReason::TransferFailed,
                                },
                            ),
                        );
                    }
                },
            }
        }
    }
}

/// The budget bound through the settlement loop: starting from a record
/// whose paid total is within the budget and whose marked milestones are
/// covered, the paid total never exceeds the budget and every marked
/// milestone stays covered by the paid total.
pub proof fn lemma_settle_budget(
    budget: u64,
    progress: int,
    paid: u64,
    ms: Seq<bool>,
    vault: u64,
    k: int,
    end: int,
    payments: Seq<MilestonePayment>,
    skipped: Seq<SkippedMilestone>,
)
    requires
        ms.len() == 10,
        paid <= budget,
        forall|i: int| 0 <= i < 10 && ms[i] ==> paid >= cumulative_milestone_target(budget, i),
    ensures
        ({
            let st = settle(budget, progress, paid, ms, vault, k, end, payments, skipped);
            &&& paid <= st.paid <= budget
            &&& (forall|i: int|
                0 <= i < 10 && st.milestones[i] ==> st.paid >= cumulative_milestone_target(
                    budget,
                    i,
                ))
        }),
    decreases end - k,
{
    let st = settle(budget, progress, paid, ms, vault, k, end, payments, skipped);
    if k < 0 || k >= end || k >= 10 {
    } else if milestone_mul_overflows(budget, k) || paid > cumulative_milestone_target(
        budget,
        k,
    ) {
    } else {
        let amount = spec_safe_payment(budget, paid, k);
        lemma_cumulative_le_budget(budget, k);
        if amount == 0 {
            lemma_settle_budget(
                budget,
                progress,
                paid,
                ms,
                vault,
                k + 1,
                end,
                payments,
                skipped.push(
                    SkippedMilestone {
                        milestone: k as usize,
                        reason: MilestoneSkipReason::NothingOwed,
                    },
                ),
            );
        } else {
            match spec_validate_payment_vals(budget, paid, ms[k], progress, k, amount as u64) {
                Err(e) => {
                    lemma_settle_budget(
                        budget,
                        progress,
                        paid,
                        ms,
                        vault,
                        k + 1,
                        end,
                        payments,
                        skipped.push(
                            SkippedMilestone {
                                milestone: k as usize,
                                reason: MilestoneSkipReason::ValidationFailed(e),
                            },
                        ),
                    );
                },
                Ok(_) => {
                    if vault >= amount {
                        let paid2 = (paid + amount) as u64;
                        let ms2 = ms.update(k, true);
                        assert(paid2 >= cumulative_milestone_target(budget, k));
                        assert(forall|i: int|
                            0 <= i < 10 && ms2[i] ==> paid2 >= cumulative_milestone_target(
                                budget,
                                i,
                            ));
                        lemma_settle_budget(
                            budget,
                            progress,
                            paid2,
                            ms2,
                            (vault - amount) as u64,
                            k + 1,
                            end,
                            payments.push(
                                MilestonePayment { milestone: k as usize, amount: amount as u64 },
                            ),
                            skipped,
                        );
                    } else {
                        lemma_settle_budget(
                            budget,
                            progress,
                            paid,
                            ms,
                            vault,
                            k + 1,
                            end,
                            payments,
                            skipped.push(
                                SkippedMilestone {
                                    milestone: k as usize,
                                    reason: MilestoneSkipReason::TransferFailed,
                                },
                            ),
                        );
                    }
                },
            }
        }
    }
}

/// Reporting the same metric values twice is idempotent: once a report has
/// been applied, a second report with identical values pays nothing and
/// leaves the paid total and the milestone bitmap exactly as the first call
/// left them, whether the second call is accepted or rejected.
pub proof fn lemma_report_metrics_idempotent(
    pre: Campaign,
    caller: AccountId,
    likes: u64,
    comments: u64,
    views: u64,
    shares: u64,
    now1: i64,
    vault1: u64,
    c1: Campaign,
    now2: i64,
    vault2: u64,
)
    requires
        ({
            let u1 = spec_update_campaign_metrics(
                pre,
                caller,
                likes,
                comments,
                views,
                shares,
                now1,
                vault1,
            );
            u1.err is None && spec_update_applied(pre, likes, comments, views, shares, now1, u1, c1)
        }),
    ensures
        ({
            let u2 = spec_update_campaign_metrics(
                c1,
                caller,
                likes,
                comments,
                views,
                shares,
                now2,
                vault2,
            );
            &&& u2.paid == c1.paid_amount
            &&& u2.milestones == c1.payment_milestones@
            &&& u2.payments.len() == 0
        }),
{
    let updated2 = spec_with_metrics(c1, likes, comments, views, shares, now2);
    assert(updated2.spec_progress() == c1.spec_progress());
}

/// A paid milestone is never paid twice: no milestone that one report call
/// paid can appear among the payments of a later report call on the record
/// the first call produced, whatever metric values, time and escrow balance
/// the later call sees.
pub proof fn lemma_no_milestone_paid_twice(
    pre: Campaign,
    caller1: AccountId,
    likes1: u64,
    comments1: u64,
    views1: u64,
    shares1: u64,
    now1: i64,
    vault1: u64,
    c1: Campaign,
    caller2: AccountId,
    likes2: u64,
    comments2: u64,
    views2: u64,
    shares2: u64,
    now2: i64,
    vault2: u64,
)
    requires
        ({
            let u1 = spec_update_campaign_metrics(
                pre,
                caller1,
                likes1,
                comments1,
                views1,
                shares1,
                now1,
                vault1,
            );
            u1.err is None && spec_update_applied(
                pre,
                likes1,
                comments1,
                views1,
                shares1,
                now1,
                u1,
                c1,
            )
        }),
    ensures
        ({
            let u1 = spec_update_campaign_metrics(
                pre,
                caller1,
                likes1,
                comments1,
                views1,
                shares1,
                now1,
                vault1,
            );
            let u2 = spec_update_campaign_metrics(
                c1,
                caller2,
                likes2,
                comments2,
                views2,
                shares2,
                now2,
                vault2,
            );
            forall|j1: int, j2: int| #![auto]
                0 <= j1 < u1.payments.len() && 0 <= j2 < u2.payments.len()
                    ==> u1.payments[j1].milestone != u2.payments[j2].milestone
        }),
{
    let u1 = spec_update_campaign_metrics(
        pre,
        caller1,
        likes1,
        comments1,
        views1,
        shares1,
        now1,
        vault1,
    );
    let u2 = spec_update_campaign_metrics(
        c1,
        caller2,
        likes2,
        comments2,
        views2,
        shares2,
        now2,
        vault2,
    );
    let updated1 = spec_with_metrics(pre, likes1, comments1, views1, shares1, now1);
    lemma_settle_monotone(
        pre.amount_usdc,
        updated1.spec_progress(),
        pre.paid_amount,
        pre.payment_milestones@,
        vault1,
        pre.spec_progress() / 10,
        updated1.spec_progress() / 10,
        Seq::empty(),
        Seq::empty(),
    );
    if u2.err is None {
        let updated2 = spec_with_metrics(c1, likes2, comments2, views2, shares2, now2);
        lemma_settle_monotone(
            c1.amount_usdc,
            updated2.spec_progress(),
            c1.paid_amount,
            c1.payment_milestones@,
            vault2,
            c1.spec_progress() / 10,
            updated2.spec_progress() / 10,
            Seq::empty(),
            Seq::empty(),
        );
    }
    assert forall|j1: int, j2: int| #![auto]
        0 <= j1 < u1.payments.len() && 0 <= j2 < u2.payments.len()
            implies u1.payments[j1].milestone != u2.payments[j2].milestone by {
        assert(u1.milestones[u1.payments[j1].milestone as int]);
        assert(!c1.payment_milestones@[u2.payments[j2].milestone as int]);
    }
}

/// Overwrites the four reported metrics and pays every newly crossed
/// milestone.
///
/// Only the stored oracle may report, only on an `Active` campaign before its
/// deadline; a rejected call changes nothing and returns the specific error.
/// `vault_balance` is the campaign's current escrow balance: a milestone
/// payment succeeds exactly when the remaining balance covers it, so the
/// returned payments can always be taken from escrow. The caller must apply
/// the record update and the returned payments as one atomic unit. When the
/// new progress reaches 100% the record moves to `Completed` and the outcome
/// asks the caller to reclaim it.
#[verifier::loop_isolation(false)]
pub fn update_campaign_metrics(
    campaign: &mut Campaign,
    caller: AccountId,
    likes: u64,
    comments: u64,
    views: u64,
    shares: u64,
    now: i64,
    vault_balance: u64,
) -> (r: Result<MetricsOutcome, ErrorCode>)
    ensures
        ({
            let u = spec_update_campaign_metrics(
                *old(campaign),
                caller,
                likes,
                comments,
                views,
                shares,
                now,
                vault_balance,
            );
            match r {
                Err(e) => u.err == Some(e) && *final(campaign) == *old(campaign),
                Ok(out) => {
                    &&& u.err is None
                    &&& spec_update_applied(
                        *old(campaign),
                        likes,
                        comments,
                        views,
                        shares,
                        now,
                        u,
                        *final(campaign),
                    )
                    &&& out.payments@ == u.payments
                    &&& out.skipped@ == u.skipped
                    &&& out.old_progress == u.old_progress
                    &&& out.new_progress == u.new_progress
                    &&& out.completed == u.completed
                },
            }
        }),
        old(campaign).wf() ==> final(campaign).wf(),
        forall|i: int|
            0 <= i < 10 && old(campaign).payment_milestones@[i]
                ==> final(campaign).payment_milestones@[i],
        r matches Ok(out) ==> forall|j: int| #![auto]
            0 <= j < out.payments@.len() ==> {
                &&& out.payments@[j].milestone < 10
                &&& !old(campaign).payment_milestones@[out.payments@[j].milestone as int]
                &&& out.payments@[j].amount > 0
            },
        r matches Ok(out) ==> {
            let delta = final(campaign).paid_amount - old(campaign).paid_amount;
            payments_total(out.payments@) == delta && delta <= vault_balance
        },
        r is Ok ==> final(campaign).status == old(campaign).status
            || old(campaign).status.can_transition_to(final(campaign).status),
{
    if caller != campaign.oracle {
        return Err(ErrorCode::UnauthorizedOracle);
    }
    if !matches!(campaign.status, CampaignStatus::Active) {
        return Err(ErrorCode::CampaignNotActive);
    }
    if now >= campaign.deadline {
        return Err(ErrorCode::CampaignExpired);
    }

    let budget: u64 = campaign.amount_usdc;
    let old_progress: u64 = campaign.get_progress_percentage();
    let new_progress: u64 = compute_progress(
        campaign.target_likes,
        campaign.target_comments,
        campaign.target_views,
        campaign.target_shares,
        likes,
        comments,
        views,
        shares,
    );
    let start: usize = (old_progress / 10) as usize;
    let end: usize = (new_progress / 10) as usize;

    let paid0: u64 = campaign.paid_amount;
    let flags0: [bool; 10] = campaign.payment_milestones;
    let mut paid: u64 = paid0;
    let mut vault: u64 = vault_balance;
    let mut flags: [bool; 10] = flags0;
    let mut payments: Vec<MilestonePayment> = Vec::new();
    let mut skipped: Vec<SkippedMilestone> = Vec::new();
    let mut k: usize = start;

    while k < end
        invariant
            start <= k,
            k <= end || k == start,
            end <= 10,
            settle(
                budget,
                new_progress as int,
                paid0,
                flags0@,
                vault_balance,
                start as int,
                end as int,
                Seq::empty(),
                Seq::empty(),
            ) == settle(
                budget,
                new_progress as int,
                paid,
                flags@,
                vault,
                k as int,
                end as int,
                payments@,
                skipped@,
            ),
        decreases end - k,
    {
        let ghost pre_paid = paid;
        let ghost pre_flags = flags@;
        let ghost pre_vault = vault;
        let ghost pre_payments = payments@;
        let ghost pre_skipped = skipped@;
        let ghost kk = k as int;

        let percentage: u64 = (k as u64 + 1) * 10;
        let total_to_pay: u64 = match budget.checked_mul(percentage) {
            None => {
                proof {
                    assert(settle(
                        budget,
                        new_progress as int,
                        paid,
                        flags@,
                        vault,
                        kk,
                        end as int,
                        payments@,
                        skipped@,
                    ).failed);
                }
                return Err(ErrorCode::MathOverflow);
            },
            Some(product) => product / 100,
        };
        let amount: u64 = match total_to_pay.checked_sub(paid) {
            None => {
                proof {
                    assert(settle(
                        budget,
                        new_progress as int,
                        paid,
                        flags@,
                        vault,
                        kk,
                        end as int,
                        payments@,
                        skipped@,
                    ).failed);
                }
                return Err(ErrorCode::MathOverflow);
            },
            Some(owed) => {
                let remaining: u64 = budget.saturating_sub(paid);
                if owed <= remaining {
                    owed
                } else {
                    remaining
                }
            },
        };
        if amount == 0 {
            skipped.push(
                SkippedMilestone { milestone: k, reason: MilestoneSkipReason::NothingOwed },
            );
        } else if flags[k] {
            skipped.push(
                SkippedMilestone {
                    milestone: k,
                    reason: MilestoneSkipReason::ValidationFailed(
                        ErrorCode::PaymentAlreadyProcessed,
                    ),
                },
            );
        } else if paid.saturating_add(amount) > budget {
            skipped.push(
                SkippedMilestone {
                    milestone: k,
                    reason: MilestoneSkipReason::ValidationFailed(ErrorCode::PaymentExceedsBudget),
                },
            );
        } else if new_progress < percentage {
            skipped.push(
                SkippedMilestone {
                    milestone: k,
                    reason: MilestoneSkipReason::ValidationFailed(ErrorCode::InsufficientFunds),
                },
            );
        } else if vault >= amount {
            paid = paid + amount;
            vault = vault - amount;
            flags[k] = true;
            payments.push(MilestonePayment { milestone: k, amount });
        } else {
            skipped.push(
                SkippedMilestone { milestone: k, reason: MilestoneSkipReason::TransferFailed },
            );
        }
        k = k + 1;

        proof {
            assert(settle(
                budget,
                new_progress as int,
                pre_paid,
                pre_flags,
                pre_vault,
                kk,
                end as int,
                pre_payments,
                pre_skipped,
            ) == settle(
                budget,
                new_progress as int,
                paid,
                flags@,
                vault,
                k as int,
                end as int,
                payments@,
                skipped@,
            ));
        }
    }

    proof {
        let st = settle(
            budget,
            new_progress as int,
            paid0,
            flags0@,
            vault_balance,
            start as int,
            end as int,
            Seq::empty(),
            Seq::empty(),
        );
        assert(st == Settlement {
            paid,
            milestones: flags@,
            vault,
            payments: payments@,
            skipped: skipped@,
            failed: false,
        });
        lemma_settle_monotone(
            budget,
            new_progress as int,
            paid0,
            flags0@,
            vault_balance,
            start as int,
            end as int,
            Seq::empty(),
            Seq::empty(),
        );
        if old(campaign).wf() {
            lemma_settle_budget(
                budget,
                new_progress as int,
                paid0,
                flags0@,
                vault_balance,
                start as int,
                end as int,
                Seq::empty(),
                Seq::empty(),
            );
        }
    }

    let completed: bool = new_progress >= 100;
    campaign.current_likes = likes;
    campaign.current_comments = comments;
    campaign.current_views = views;
    campaign.current_shares = shares;
    campaign.last_updated = now;
    campaign.paid_amount = paid;
    campaign.payment_milestones = flags;
    if completed {
        campaign.status = CampaignStatus::Completed;
    }

    Ok(
        MetricsOutcome {
            payments,
            skipped,
            old_progress,
            new_progress,
            completed,
        },
    )
}

} // verus!
