//! Cancelling a campaign: only the brand may cancel, a `Completed` campaign
//! cannot be cancelled, and an `Active` campaign refunds its unpaid budget.

use vstd::prelude::*;

use crate::errors::ErrorCode;
use crate::state::campaign::{AccountId, Campaign};
use crate::state::campaign_status::CampaignStatus;

verus! {

/// Which error, if any, rejects cancellation: the caller must be the stored
/// brand, the campaign must not be `Completed`, and for an `Active` campaign
/// the refund subtraction `amount_usdc - paid_amount` must not underflow.
pub open spec fn spec_cancel_check(c: Campaign, caller: AccountId) -> Option<ErrorCode> {
    if caller != c.brand {
        Some(ErrorCode::UnauthorizedBrand)
    } else if c.status is Completed {
        Some(ErrorCode::CampaignAlreadyCompleted)
    } else if c.status is Active && c.paid_amount > c.amount_usdc {
        Some(ErrorCode::MathOverflow)
    } else {
        None
    }
}

/// The refund a successful cancellation owes the brand: the unpaid remainder
/// of an `Active` campaign's budget, and nothing for a `Draft` campaign
/// (nothing was ever funded).
pub open spec fn spec_cancel_refund(c: Campaign) -> Option<u64> {
    if c.status is Active && c.amount_usdc - c.paid_amount > 0 {
        Some((c.amount_usdc - c.paid_amount) as u64)
    } else {
        None
    }
}

/// Cancels a `Draft`, `Active` or already `Cancelled` campaign.
///
/// On success the record is `Cancelled` with `last_updated = now` and the
/// result carries the refund transfer the caller owes from the campaign's
/// escrow balance back to the brand, if any. The caller must apply the record
/// update and the refund as one atomic unit. On error nothing changes.
pub fn cancel_campaign(campaign: &mut Campaign, caller: AccountId, now: i64) -> (r: Result<
    Option<u64>,
    ErrorCode,
>)
    ensures
        ({
            let pre = *old(campaign);
            match r {
                Err(e) => spec_cancel_check(pre, caller) == Some(e) && *final(campaign) == pre,
                Ok(refund) => {
                    &&& spec_cancel_check(pre, caller) is None
                    &&& refund == spec_cancel_refund(pre)
                    &&& *final(campaign) == Campaign {
                        status: CampaignStatus::Cancelled,
                        last_updated: now,
                        ..pre
                    }
                },
            }
        }),
        old(campaign).wf() ==> final(campaign).wf(),
        r is Ok ==> old(campaign).status == final(campaign).status || old(
            campaign,
        ).status.can_transition_to(final(campaign).status),
{
    if caller != campaign.brand {
        return Err(ErrorCode::UnauthorizedBrand);
    }
    if matches!(campaign.status, CampaignStatus::Completed) {
        return Err(ErrorCode::CampaignAlreadyCompleted);
    }
    let refund: Option<u64> = if matches!(campaign.status, CampaignStatus::Active) {
        let remaining: u64 = match campaign.amount_usdc.checked_sub(campaign.paid_amount) {
            None => {
                return Err(ErrorCode::MathOverflow);
            },
            Some(v) => v,
        };
        if remaining > 0 {
            Some(remaining)
        } else {
            None
        }
    } else {
        None
    };
    campaign.status = CampaignStatus::Cancelled;
    campaign.last_updated = now;
    Ok(refund)
}

} // verus!
