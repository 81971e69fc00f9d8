//! A host-based endpoint detection engine, verified.
//!
//! - `shared`, `events`: the records that collectors produce and the alerts
//!   the rules raise.
//! - `rules`: the sensor's detection rules over process and network records.
//! - `correlation`: per-process behavioral context and the stateful network
//!   rules, with the maintenance sweep.
//! - `dedup`: at most one persisted alert per process and rule.
//! - `collect`, `etw`, `userdata`, `devices`, `registry`: the pure steps of the
//!   collectors (connection-table lines, trace records, keyboards, registry
//!   snapshots).
//! - `report`: filtering and counting for the alert-log reader.
//! - `lifecycle`: start-up retries, operator commands and ordered shutdown.
//! - `config`, `patterns`, `netaddr`, `text`, `clock`, `host`: settings, the
//!   fixed pattern lists, address classification and helpers.
use vstd::prelude::*;

pub mod clock;
pub mod collect;
pub mod config;
pub mod correlation;
pub mod dedup;
pub mod devices;
pub mod etw;
pub mod events;
pub mod host;
pub mod lifecycle;
pub mod netaddr;
pub mod patterns;
pub mod registry;
pub mod report;
pub mod rules;
pub mod shared;
pub mod text;
pub mod userdata;

verus! {

} // verus!
