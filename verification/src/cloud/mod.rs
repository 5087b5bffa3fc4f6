//! The cloud compilation service: its settings, its job store, and how it answers requests.

pub mod config;
pub mod error;
pub mod handlers;
pub mod job;
pub mod server;

pub use config::CloudConfig;
pub use error::CloudError;
pub use job::{Job, JobStatus, JobStore};
pub use server::CloudServer;

