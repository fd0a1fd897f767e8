//! The campaign record and its lifecycle status.

pub mod campaign;
pub mod campaign_status;
