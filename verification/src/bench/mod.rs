//! Benchmark workloads, runner settings and the ordering of reported results.

pub mod reporter;
pub mod runner;
pub mod workloads;

pub use reporter::Reporter;
pub use runner::{BenchResult, BenchRunner};
pub use workloads::{ReturnKind, Workload, WorkloadCategory};
