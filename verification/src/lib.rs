//! Settlement engine for an escrow-based marketing marketplace.
//!
//! A funder (brand) places a budget in escrow for a campaign created by a
//! beneficiary (influencer); a neutral oracle reports engagement metrics, and
//! the engine releases the budget to the beneficiary in ten 10%-milestone
//! instalments as the reported progress crosses each threshold.
//!
//! The library is the pure settlement core: the campaign record, its derived
//! computations, and the five lifecycle operations (create, fund,
//! report-metrics, cancel, close). Everything that touches the outside world
//! (token transfers, account storage, the clock) is modelled at the interface
//! boundary: operations take the current time and the escrow balance as plain
//! inputs, and return the transfers they require as plain values, so the whole
//! decision logic is verified.

pub mod errors;
pub mod instructions;
pub mod state;

pub use errors::ErrorCode;
pub use instructions::brand_pay_campaign::brand_pay_campaign;
pub use instructions::cancel_campaign::cancel_campaign;
pub use instructions::close_campaign::close_campaign;
pub use instructions::create_campaign::create_campaign;
pub use instructions::update_campaign_metrics::update_campaign_metrics;
pub use instructions::update_campaign_metrics::{
    MetricsOutcome, MilestonePayment, MilestoneSkipReason, SkippedMilestone,
};
pub use state::campaign::{AccountId, Campaign};
pub use state::campaign_status::CampaignStatus;
