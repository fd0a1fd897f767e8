//! The campaign record: identity, targets, reported metrics, financial
//! totals, lifecycle status and milestone bitmap, plus the derived
//! computations (progress percentage, safe milestone payment, per-payment
//! validation) that the lifecycle operations are built on.

use vstd::prelude::*;

use crate::errors::ErrorCode;
use crate::state::campaign_status::CampaignStatus;

verus! {

/// Opaque stable identifier of a participating account (brand, influencer,
/// oracle). The settlement core only ever compares identifiers for equality.
#[derive(Clone, Copy, Debug, PartialEq, Eq, Structural)]
pub struct AccountId(pub u64);

/// The escrow + milestone record tracked by this core.
///
/// # Invariants
///
/// [`Campaign::wf`] captures what must hold after every operation:
/// - `paid_amount <= amount_usdc` (never overpay),
/// - `payment_milestones[i]` implies at least the cumulative `(i+1)*10%`
///   milestone target has been paid,
/// - at least one target metric is positive,
/// - every descriptive string has at most 50 characters.
#[derive(Debug)]
pub struct Campaign {
    /// Influencer who created the campaign (receives payments).
    pub influencer: AccountId,
    /// Brand funding the campaign (pays upfront).
    pub brand: AccountId,
    /// Unique campaign name (max 50 chars, part of the addressing key).
    pub name: String,
    /// Influencer's handle/nickname (max 50 chars).
    pub nickname: String,
    /// Brand's name (max 50 chars).
    pub brand_name: String,
    /// Campaign hashtag (max 50 chars).
    pub hashtag: String,
    /// Target number of likes to achieve.
    pub target_likes: u64,
    /// Target number of comments to achieve.
    pub target_comments: u64,
    /// Target number of views to achieve.
    pub target_views: u64,
    /// Target number of shares to achieve.
    pub target_shares: u64,
    /// Current number of likes, as last reported by the oracle.
    pub current_likes: u64,
    /// Current number of comments.
    pub current_comments: u64,
    /// Current number of views.
    pub current_views: u64,
    /// Current number of shares.
    pub current_shares: u64,
    /// Total campaign budget in the smallest currency unit.
    pub amount_usdc: u64,
    /// Cumulative amount paid to the influencer so far.
    pub paid_amount: u64,
    /// Milestone payment tracking: index `i` true means the `(i+1)*10%`
    /// milestone has been paid. Prevents double payment.
    pub payment_milestones: [bool; 10],
    /// Campaign deadline (Unix timestamp).
    pub deadline: i64,
    /// Current lifecycle status.
    pub status: CampaignStatus,
    /// Authorized oracle: the only caller allowed to report metrics.
    pub oracle: AccountId,
    /// Creation timestamp (Unix timestamp).
    pub created_at: i64,
    /// Timestamp of the last state change.
    pub last_updated: i64,
}

/// A reported metric counts toward progress only up to its own target, so an
/// over-performing metric cannot inflate overall progress.
pub open spec fn capped(current: u64, target: u64) -> int {
    if current <= target {
        current as int
    } else {
        target as int
    }
}

/// Sum of the four metric targets.
pub open spec fn spec_total_target(tl: u64, tc: u64, tv: u64, ts: u64) -> int {
    tl + tc + tv + ts
}

/// Sum of the four reported metrics, each capped at its own target.
pub open spec fn spec_total_current(
    tl: u64,
    tc: u64,
    tv: u64,
    ts: u64,
    cl: u64,
    cc: u64,
    cv: u64,
    cs: u64,
) -> int {
    capped(cl, tl) + capped(cc, tc) + capped(cv, tv) + capped(cs, ts)
}

/// Aggregate progress percentage: the capped metric sum over the target sum,
/// floored, and capped at 100. Zero when no target is set.
pub open spec fn spec_progress_vals(
    tl: u64,
    tc: u64,
    tv: u64,
    ts: u64,
    cl: u64,
    cc: u64,
    cv: u64,
    cs: u64,
) -> int {
    let total_target = spec_total_target(tl, tc, tv, ts);
    let total_current = spec_total_current(tl, tc, tv, ts, cl, cc, cv, cs);
    if total_target == 0 {
        0
    } else {
        let ratio = total_current * 100 / total_target;
        if ratio <= 100 {
            ratio
        } else {
            100
        }
    }
}

/// Percentage of the budget owed once milestone `k` is reached: the
/// `(k+1)*10%` threshold.
pub open spec fn milestone_fraction(k: int) -> int {
    (k + 1) * 10
}

/// Cumulative amount owed after milestone `k`: `floor(budget * (k+1) * 10 / 100)`.
pub open spec fn cumulative_milestone_target(budget: u64, k: int) -> int {
    budget * milestone_fraction(k) / 100
}

/// The overflow-checked multiplication in the milestone computation fails
/// exactly when `budget * (k+1) * 10` exceeds the machine range.
pub open spec fn milestone_mul_overflows(budget: u64, k: int) -> bool {
    budget * milestone_fraction(k) > u64::MAX
}

/// The amount a successful milestone-`k` payment transfers: what is still
/// owed toward the cumulative milestone target, clamped (as a second,
/// independent safety net) to what is left of the budget.
pub open spec fn spec_safe_payment(budget: u64, paid: u64, k: int) -> int {
    let owed = cumulative_milestone_target(budget, k) - paid;
    let remaining = if paid <= budget {
        budget - paid
    } else {
        0
    };
    if owed <= remaining {
        owed
    } else {
        remaining
    }
}

/// Saturating 64-bit addition, as used by the budget comparison in
/// [`spec_validate_payment_vals`].
pub open spec fn saturating_add_u64(a: u64, b: u64) -> int {
    if a + b <= u64::MAX {
        a + b
    } else {
        u64::MAX as int
    }
}

/// The full result of the safe-payment computation for milestone `k`:
/// `InvalidMilestone` for `k >= 10`, `MathOverflow` when the cumulative
/// target overflows or is already exceeded by `paid`, and the clamped amount
/// otherwise.
pub open spec fn spec_calculate_safe_payment(budget: u64, paid: u64, k: int) -> Result<
    u64,
    ErrorCode,
> {
    if k >= 10 {
        Err(ErrorCode::InvalidMilestone)
    } else if milestone_mul_overflows(budget, k) {
        Err(ErrorCode::MathOverflow)
    } else if paid > cumulative_milestone_target(budget, k) {
        Err(ErrorCode::MathOverflow)
    } else {
        Ok(spec_safe_payment(budget, paid, k) as u64)
    }
}

/// The payment-safety checks for milestone `k`, in order, failing fast on the
/// first violation: index range, no double payment, a positive amount, the
/// budget bound (with a saturating addition for the comparison), and enough
/// reported progress to justify the milestone.
pub open spec fn spec_validate_payment_vals(
    budget: u64,
    paid: u64,
    milestone_already_paid: bool,
    progress: int,
    k: int,
    amount: u64,
) -> Result<(), ErrorCode> {
    if k >= 10 {
        Err(ErrorCode::InvalidMilestone)
    } else if milestone_already_paid {
        Err(ErrorCode::PaymentAlreadyProcessed)
    } else if amount == 0 {
        Err(ErrorCode::InsufficientFunds)
    } else if saturating_add_u64(paid, amount) > budget {
        Err(ErrorCode::PaymentExceedsBudget)
    } else if progress < milestone_fraction(k) {
        Err(ErrorCode::InsufficientFunds)
    } else {
        Ok(())
    }
}

/// Computes the aggregate progress percentage from explicit target and
/// current values. Shared by [`Campaign::get_progress_percentage`] and by the
/// report-metrics operation, which needs the prospective progress of new
/// metric values before committing them to the record.
pub(crate) fn compute_progress(
    tl: u64,
    tc: u64,
    tv: u64,
    ts: u64,
    cl: u64,
    cc: u64,
    cv: u64,
    cs: u64,
) -> (p: u64)
    ensures
        p == spec_progress_vals(tl, tc, tv, ts, cl, cc, cv, cs),
        p <= 100,
{
    let mut total_target: u128 = 0;
    let mut total_current: u128 = 0;
    if tl > 0 {
        total_target = total_target + tl as u128;
        total_current = total_current + (if cl <= tl { cl } else { tl }) as u128;
    }
    if tc > 0 {
        total_target = total_target + tc as u128;
        total_current = total_current + (if cc <= tc { cc } else { tc }) as u128;
    }
    if tv > 0 {
        total_target = total_target + tv as u128;
        total_current = total_current + (if cv <= tv { cv } else { tv }) as u128;
    }
    if ts > 0 {
        total_target = total_target + ts as u128;
        total_current = total_current + (if cs <= ts { cs } else { ts }) as u128;
    }
    if total_target == 0 {
        return 0;
    }
    let ratio: u128 = total_current * 100 / total_target;
    let bounded: u128 = if ratio <= 100 {
        ratio
    } else {
        100
    };
    bounded as u64
}

impl Campaign {
    /// Aggregate progress of this campaign's reported metrics.
    pub open spec fn spec_progress(self) -> int {
        spec_progress_vals(
            self.target_likes,
            self.target_comments,
            self.target_views,
            self.target_shares,
            self.current_likes,
            self.current_comments,
            self.current_views,
            self.current_shares,
        )
    }

    /// Well-formedness: the invariants that creation establishes and every
    /// operation preserves.
    pub open spec fn wf(self) -> bool {
        &&& self.amount_usdc >= 1
        &&& self.paid_amount <= self.amount_usdc
        &&& (forall|i: int|
            0 <= i < 10 && self.payment_milestones@[i] ==> self.paid_amount
                >= cumulative_milestone_target(self.amount_usdc, i))
        &&& (self.target_likes > 0 || self.target_comments > 0 || self.target_views > 0
            || self.target_shares > 0)
        &&& self.name@.len() <= 50
        &&& self.nickname@.len() <= 50
        &&& self.brand_name@.len() <= 50
        &&& self.hashtag@.len() <= 50
    }

    /// The payment-safety checks of this record for milestone `k` and the
    /// given amount.
    pub open spec fn spec_validate_payment(self, k: int, amount: u64) -> Result<(), ErrorCode> {
        if k >= 10 {
            Err(ErrorCode::InvalidMilestone)
        } else {
            spec_validate_payment_vals(
                self.amount_usdc,
                self.paid_amount,
                self.payment_milestones@[k],
                self.spec_progress(),
                k,
                amount,
            )
        }
    }

    /// Current campaign progress as an integer percentage in `0..=100`.
    ///
    /// Only metrics with a positive target take part; each reported value is
    /// capped at its own target, and the final ratio is capped at 100. Returns
    /// 0 when every target is zero (unreachable for well-formed records, kept
    /// as a defensive guard against division by zero).
    pub fn get_progress_percentage(&self) -> (p: u64)
        ensures
            p == self.spec_progress(),
            p <= 100,
    {
        compute_progress(
            self.target_likes,
            self.target_comments,
            self.target_views,
            self.target_shares,
            self.current_likes,
            self.current_comments,
            self.current_views,
            self.current_shares,
        )
    }

    /// Checks that paying `amount_to_transfer` for `milestone` is safe right
    /// now: the milestone is in range and unpaid, the amount is positive and
    /// fits under the budget, and the reported progress justifies the
    /// milestone.
    pub fn validate_payment_safety(&self, milestone: usize, amount_to_transfer: u64) -> (r: Result<
        (),
        ErrorCode,
    >)
        ensures
            r == self.spec_validate_payment(milestone as int, amount_to_transfer),
    {
        if milestone >= 10 {
            return Err(ErrorCode::InvalidMilestone);
        }
        if self.payment_milestones[milestone] {
            return Err(ErrorCode::PaymentAlreadyProcessed);
        }
        if amount_to_transfer == 0 {
            return Err(ErrorCode::InsufficientFunds);
        }
        if self.paid_amount.saturating_add(amount_to_transfer) > self.amount_usdc {
            return Err(ErrorCode::PaymentExceedsBudget);
        }
        let current_progress = self.get_progress_percentage();
        let required_progress: u64 = (milestone as u64 + 1) * 10;
        if current_progress < required_progress {
            return Err(ErrorCode::InsufficientFunds);
        }
        Ok(())
    }

    /// The amount still owed for `milestone`: the cumulative `(milestone+1)*10%`
    /// share of the budget minus what was already paid, clamped to the unpaid
    /// remainder of the budget. Fails with `InvalidMilestone` out of range and
    /// with `MathOverflow` when the cumulative target overflows the machine
    /// range or is already exceeded by `paid_amount`.
    pub fn calculate_safe_payment(&self, milestone: usize) -> (r: Result<u64, ErrorCode>)
        ensures
            r == spec_calculate_safe_payment(self.amount_usdc, self.paid_amount, milestone as int),
    {
        if milestone >= 10 {
            return Err(ErrorCode::InvalidMilestone);
        }
        let percentage: u64 = (milestone as u64 + 1) * 10;
        let total_to_pay: u64 = match self.amount_usdc.checked_mul(percentage) {
            None => {
                return Err(ErrorCode::MathOverflow);
            },
            Some(product) => product / 100,
        };
        let amount_to_transfer: u64 = match total_to_pay.checked_sub(self.paid_amount) {
            None => {
                return Err(ErrorCode::MathOverflow);
            },
            Some(owed) => owed,
        };
        let remaining: u64 = self.amount_usdc.saturating_sub(self.paid_amount);
        let safe_amount: u64 = if amount_to_transfer <= remaining {
            amount_to_transfer
        } else {
            remaining
        };
        Ok(safe_amount)
    }
}

impl Clone for Campaign {
    /// An exact copy of the record.
    fn clone(&self) -> (res: Self)
        ensures
            res == *self,
    {
        Campaign {
            influencer: self.influencer,
            brand: self.brand,
            name: self.name.clone(),
            nickname: self.nickname.clone(),
            brand_name: self.brand_name.clone(),
            hashtag: self.hashtag.clone(),
            target_likes: self.target_likes,
            target_comments: self.target_comments,
            target_views: self.target_views,
            target_shares: self.target_shares,
            current_likes: self.current_likes,
            current_comments: self.current_comments,
            current_views: self.current_views,
            current_shares: self.current_shares,
            amount_usdc: self.amount_usdc,
            paid_amount: self.paid_amount,
            payment_milestones: self.payment_milestones,
            deadline: self.deadline,
            status: self.status,
            oracle: self.oracle,
            created_at: self.created_at,
            last_updated: self.last_updated,
        }
    }
}

} // verus!
