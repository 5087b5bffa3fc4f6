//! The command-line front end: its arguments, and the decisions of its commands.

pub mod args;
pub mod bench;
pub mod pipeline;
pub mod serve;

pub use args::{BenchArgs, CloudArgs, Command, CompileArgs, RunArgs, ServeArgs};
pub use pipeline::CompileResult;
