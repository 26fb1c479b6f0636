//! Prometheus metrics for jails, built from the per-jail resource usage that
//! rctl reports.
//!
//! The library holds the metrics state machine: every series, the book of
//! last raw counter values, and the mapping from a jail's usage snapshot onto
//! the series. Reading the operating system and writing the exposition text
//! to its destination are left to the caller.
use vstd::prelude::*;

pub mod resource;
pub mod series;
pub mod ledger;
pub mod metrics;
pub mod laws;
pub mod rctlstate;
pub mod file;

pub use file::{ExporterError, FileExporter, FileExporterOutput};
pub use metrics::{JailReading, Metrics, MetricsError};
pub use rctlstate::{RctlState, SysctlReading};
pub use resource::{ResourceKind, Sample, SeriesClass};

verus! {

} // verus!
