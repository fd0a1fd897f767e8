//! The five lifecycle operations: create, fund, report-metrics, cancel,
//! close.
//!
//! Each operation validates its preconditions against the current record and
//! either fails with a specific [`crate::errors::ErrorCode`] and no mutation,
//! or commits its state change and reports the token transfers it requires as
//! plain values. The caller is expected to apply the record mutation and the
//! returned transfers as one atomic unit.

pub mod brand_pay_campaign;
pub mod cancel_campaign;
pub mod close_campaign;
pub mod create_campaign;
pub mod update_campaign_metrics;
