//! Tax buckets for the distributions of a tokenised offering.
//!
//! A holder's cost basis is recorded, in place of any recorded before. Every
//! distribution then returns capital as long as basis remains, and counts as
//! capital gains beyond it. A holder's buckets are added up per fiscal year of
//! the offering.
//!
//! - [`calendar`]: years, months and fiscal years of Unix timestamps.
//! - [`keys`]: the identifiers of holders, offerings and storage entries.
//! - [`events`]: what a distribution publishes.
//! - [`ledger`]: the entries and events that accounting works on.
//! - [`tax_bucket`]: the accounting itself.
//! - [`laws`]: what holds across functions and across distributions.
pub mod calendar;
mod entries;
pub mod events;
pub mod keys;
pub mod laws;
pub mod ledger;
pub mod tax_bucket;

pub use calendar::{
    fiscal_year_from_ts, is_leap_year, timestamp_to_month, timestamp_to_year,
    DEFAULT_FISCAL_START_MONTH, MAX_TIMESTAMP,
};
pub use events::{
    EventData, EventKind, EventTopic, TaxEvent, EVENT_TAX_LOT_V1, EVENT_TAX_RECLASSIFY,
    EVENT_TAX_ROLLOVER,
};
pub use keys::{Address, DataKey2, OfferingId, Symbol};
pub use ledger::{TaxLedger, TaxYearSummary};
pub use tax_bucket::{
    apply_return_of_capital_with_cap, rollover_distribution, track_cost_basis,
    update_tax_year_accumulator, TaxBucketResult,
};
