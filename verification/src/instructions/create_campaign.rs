//! Creating a new campaign record in `Draft` status.

use vstd::prelude::*;
use vstd::string::StrSliceExecFns;

use crate::errors::ErrorCode;
use crate::state::campaign::{AccountId, Campaign};
use crate::state::campaign_status::CampaignStatus;

verus! {

/// Which error, if any, rejects the creation inputs; the checks run in this
/// order and the first violation wins.
pub open spec fn spec_create_check(
    name: Seq<char>,
    nickname: Seq<char>,
    brand_name: Seq<char>,
    hashtag: Seq<char>,
    target_likes: u64,
    target_comments: u64,
    target_views: u64,
    target_shares: u64,
    amount_usdc: u64,
    deadline: i64,
    now: i64,
) -> Option<ErrorCode> {
    if name.len() > 50 {
        Some(ErrorCode::NameTooLong)
    } else if nickname.len() > 50 {
        Some(ErrorCode::NicknameTooLong)
    } else if brand_name.len() > 50 {
        Some(ErrorCode::BrandNameTooLong)
    } else if hashtag.len() > 50 {
        Some(ErrorCode::HashtagTooLong)
    } else if amount_usdc == 0 {
        Some(ErrorCode::InvalidAmount)
    } else if deadline <= now {
        Some(ErrorCode::InvalidDeadline)
    } else if target_likes == 0 && target_comments == 0 && target_views == 0 && target_shares
        == 0 {
        Some(ErrorCode::NoTargetsSet)
    } else {
        None
    }
}

/// Creates a new campaign record in `Draft` status.
///
/// All validations must pass or the whole operation fails with the first
/// violated check's error and no record is created: labels of at most 50
/// characters, a positive budget, a strictly future deadline, and at least
/// one positive target. The new record starts with zero reported metrics,
/// nothing paid, no milestone marked, and `created_at == last_updated == now`.
pub fn create_campaign(
    influencer: AccountId,
    brand: AccountId,
    oracle: AccountId,
    name: String,
    nickname: String,
    brand_name: String,
    hashtag: String,
    target_likes: u64,
    target_comments: u64,
    target_views: u64,
    target_shares: u64,
    amount_usdc: u64,
    deadline: i64,
    now: i64,
) -> (r: Result<Campaign, ErrorCode>)
    ensures
        ({
            let check = spec_create_check(
                name@,
                nickname@,
                brand_name@,
                hashtag@,
                target_likes,
                target_comments,
                target_views,
                target_shares,
                amount_usdc,
                deadline,
                now,
            );
            match r {
                Err(e) => check == Some(e),
                Ok(c) => {
                    &&& check is None
                    &&& c.influencer == influencer
                    &&& c.brand == brand
                    &&& c.oracle == oracle
                    &&& c.name == name
                    &&& c.nickname == nickname
                    &&& c.brand_name == brand_name
                    &&& c.hashtag == hashtag
                    &&& c.target_likes == target_likes
                    &&& c.target_comments == target_comments
                    &&& c.target_views == target_views
                    &&& c.target_shares == target_shares
                    &&& c.current_likes == 0
                    &&& c.current_comments == 0
                    &&& c.current_views == 0
                    &&& c.current_shares == 0
                    &&& c.amount_usdc == amount_usdc
                    &&& c.paid_amount == 0
                    &&& (forall|i: int| 0 <= i < 10 ==> !c.payment_milestones@[i])
                    &&& c.deadline == deadline
                    &&& c.status is Draft
                    &&& c.created_at == now
                    &&& c.last_updated == now
                    &&& c.wf()
                },
            }
        }),
{
    if name.as_str().unicode_len() > 50 {
        return Err(ErrorCode::NameTooLong);
    }
    if nickname.as_str().unicode_len() > 50 {
        return Err(ErrorCode::NicknameTooLong);
    }
    if brand_name.as_str().unicode_len() > 50 {
        return Err(ErrorCode::BrandNameTooLong);
    }
    if hashtag.as_str().unicode_len() > 50 {
        return Err(ErrorCode::HashtagTooLong);
    }
    if amount_usdc == 0 {
        return Err(ErrorCode::InvalidAmount);
    }
    if deadline <= now {
        return Err(ErrorCode::InvalidDeadline);
    }
    if target_likes == 0 && target_comments == 0 && target_views == 0 && target_shares == 0 {
        return Err(ErrorCode::NoTargetsSet);
    }
    Ok(
        Campaign {
            influencer,
            brand,
            name,
            nickname,
            brand_name,
            hashtag,
            target_likes,
            target_comments,
            target_views,
            target_shares,
            current_likes: 0,
            current_comments: 0,
            current_views: 0,
            current_shares: 0,
            amount_usdc,
            paid_amount: 0,
            payment_milestones: [false, false, false, false, false, false, false, false, false, false],
            deadline,
            status: CampaignStatus::Draft,
            oracle,
            created_at: now,
            last_updated: now,
        },
    )
}

} // verus!
