//! Lifecycle states of a campaign and the one-way transition graph.
//!
//! ```text
//!                    fund
//!     Draft ──────────────────────> Active
//!       │                              │
//!       │  cancel                      │  report-metrics reaching 100%
//!       └─────────> Cancelled <────────┴──> Completed ──close──> (removed)
//! ```
//!
//! `Completed` and `Cancelled` are terminal: no transition leaves them.

use vstd::prelude::*;

verus! {

/// Lifecycle status of a campaign. Transitions are one-way (no back-edges).
#[derive(Clone, Copy, Debug, PartialEq, Eq, Structural)]
pub enum CampaignStatus {
    /// Created but not yet funded by the brand.
    Draft,
    /// Funded and running; the oracle may report metrics and trigger payments.
    Active,
    /// Reached 100% of its targets; all payments processed.
    Completed,
    /// Terminated by the brand before completion.
    Cancelled,
}

impl CampaignStatus {
    /// A terminal status admits no further transition.
    pub open spec fn is_terminal(self) -> bool {
        self is Completed || self is Cancelled
    }

    /// The edges of the one-way lifecycle graph.
    pub open spec fn can_transition_to(self, next: CampaignStatus) -> bool {
        ||| (self is Draft && next is Active)
        ||| (self is Draft && next is Cancelled)
        ||| (self is Active && next is Completed)
        ||| (self is Active && next is Cancelled)
    }

    /// The display name of this status.
    pub open spec fn spec_str(self) -> Seq<char> {
        match self {
            CampaignStatus::Draft => "Draft"@,
            CampaignStatus::Active => "Active"@,
            CampaignStatus::Completed => "Completed"@,
            CampaignStatus::Cancelled => "Cancelled"@,
        }
    }

    /// The display name of this status.
    pub fn as_str(&self) -> (s: &'static str)
        ensures
            s@ == self.spec_str(),
    {
        match self {
            CampaignStatus::Draft => "Draft",
            CampaignStatus::Active => "Active",
            CampaignStatus::Completed => "Completed",
            CampaignStatus::Cancelled => "Cancelled",
        }
    }
}

} // verus!
