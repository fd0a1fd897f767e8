//! Closing a `Completed` campaign: the caller may reclaim the record's
//! backing storage, crediting its reservation to the oracle.

use vstd::prelude::*;

use crate::errors::ErrorCode;
use crate::state::campaign::Campaign;
use crate::state::campaign_status::CampaignStatus;

verus! {

/// Checks that a campaign record may be reclaimed.
///
/// Succeeds exactly when the campaign is `Completed`; the caller then owes
/// the actual reclamation (freeing the record and returning its storage
/// reservation to the oracle). A record in any other status must stay.
pub fn close_campaign(campaign: &Campaign) -> (r: Result<(), ErrorCode>)
    ensures
        r == (if campaign.status is Completed {
            Ok::<(), ErrorCode>(())
        } else {
            Err::<(), ErrorCode>(ErrorCode::CampaignNotInTerminalState)
        }),
{
    if matches!(campaign.status, CampaignStatus::Completed) {
        Ok(())
    } else {
        Err(ErrorCode::CampaignNotInTerminalState)
    }
}

} // verus!
