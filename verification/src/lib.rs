//! A dynamic-DNS reconciliation library.
//!
//! The library decides, for a configured set of DNS names, how to bring the
//! provider's A records in line with the machine's current public IPv4
//! address: it deduplicates zone listings, plans a create / update / no-op
//! action per record, fixes the parameters of each provider write, and folds
//! the per-record outcomes into one overall run outcome.

mod cache;
mod client;
mod dns;
mod execute;
mod plan;
mod report;

pub use cache::DnsZones;
pub use cache::lemma_find_first_match;
pub use cache::lemma_find_matches;
pub use cache::lemma_find_none;
pub use cache::lemma_zone_fetch_dedup;
pub use cache::record_matches;
pub use cache::spec_find;
pub use cache::spec_zones_to_fetch;
pub use cache::zones_to_fetch;
pub use client::new_client;
pub use dns::CloudflareConfig;
pub use dns::ObservedRecord;
pub use dns::ObservedRecordV;
pub use dns::RecordConfig;
pub use dns::RecordConfigV;
pub use dns::RecordContent;
pub use dns::ipv4;
pub use execute::RecordWrite;
pub use execute::RecordWriteV;
pub use execute::TaskResult;
pub use execute::TaskResultV;
pub use execute::spec_finish;
pub use execute::spec_outcome_view;
pub use execute::spec_success_message;
pub use execute::spec_task_name;
pub use execute::spec_write_request;
pub use plan::Task;
pub use plan::TaskV;
pub use plan::lemma_create_when_absent;
pub use plan::lemma_non_a_record_safety;
pub use plan::lemma_noop_when_current;
pub use plan::lemma_update_preserves_identifier;
pub use plan::plan_anomaly;
pub use plan::spec_plan;
pub use plan::spec_plan_anomaly;
pub use report::Reporter;
pub use report::RunOutcome;
pub use report::RunOutcomeV;
pub use report::aggregate;
pub use report::format_u64;
pub use report::lemma_empty_plan_is_success;
pub use report::lemma_notifier_isolation;
pub use report::lemma_partial_failure_aggregation;
pub use report::spec_decimal;
pub use report::spec_digit;
pub use report::spec_failure_count;
pub use report::spec_is_failure;
pub use report::spec_observe;
pub use report::spec_observe_all;
pub use report::spec_outcome_of_count;
pub use report::spec_run_outcome;
pub use report::spec_summary_message;
