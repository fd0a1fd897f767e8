//! Funding a `Draft` campaign: the brand pays the full budget into escrow and
//! the campaign becomes `Active`.

use vstd::prelude::*;

use crate::errors::ErrorCode;
use crate::state::campaign::Campaign;
use crate::state::campaign_status::CampaignStatus;

verus! {

/// Which error, if any, rejects funding: the campaign must still be in
/// `Draft` and its deadline must lie in the future.
pub open spec fn spec_fund_check(c: Campaign, now: i64) -> Option<ErrorCode> {
    if !(c.status is Draft) {
        Some(ErrorCode::CampaignNotDraft)
    } else if now >= c.deadline {
        Some(ErrorCode::CampaignExpired)
    } else {
        None
    }
}

/// Activates a `Draft` campaign against payment of the full budget.
///
/// On success the returned amount is exactly `amount_usdc`: the single
/// all-or-nothing transfer the caller owes from the brand's account into the
/// campaign's escrow balance (no partial funding). The record moves to
/// `Active` with `last_updated = now`; the caller must apply the record
/// update and the transfer as one atomic unit, so that a failed transfer
/// leaves the stored record in `Draft`. On error nothing changes.
pub fn brand_pay_campaign(campaign: &mut Campaign, now: i64) -> (r: Result<u64, ErrorCode>)
    ensures
        ({
            let pre = *old(campaign);
            match r {
                Err(e) => spec_fund_check(pre, now) == Some(e) && *final(campaign) == pre,
                Ok(amount) => {
                    &&& spec_fund_check(pre, now) is None
                    &&& amount == pre.amount_usdc
                    &&& *final(campaign) == Campaign {
                        status: CampaignStatus::Active,
                        last_updated: now,
                        ..pre
                    }
                },
            }
        }),
        old(campaign).wf() ==> final(campaign).wf(),
        r is Ok ==> old(campaign).status.can_transition_to(final(campaign).status),
{
    if !matches!(campaign.status, CampaignStatus::Draft) {
        return Err(ErrorCode::CampaignNotDraft);
    }
    if now >= campaign.deadline {
        return Err(ErrorCode::CampaignExpired);
    }
    campaign.status = CampaignStatus::Active;
    campaign.last_updated = now;
    Ok(campaign.amount_usdc)
}

} // verus!
