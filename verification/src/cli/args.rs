//! The arguments of the commands.

use vstd::prelude::*;

verus! {

/// Arguments of `compile`.
#[derive(Debug)]
pub struct CompileArgs {
    /// Path to the Python source file.
    pub input: String,
    /// Output path for the compiled artifact.
    pub output: Option<String>,
    /// Emit LLVM IR instead of native code.
    pub emit_ir: bool,
}

/// Arguments of `run`.
#[derive(Debug)]
pub struct RunArgs {
    /// Path to the Python source file.
    pub input: String,
    /// Function to execute.
    pub function: String,
    /// Integer arguments to pass.
    pub args: Vec<i64>,
}

/// Arguments of `bench`.
#[derive(Debug)]
pub struct BenchArgs {
    /// Number of warm-up iterations.
    pub warmup: u64,
    /// Number of measured iterations.
    pub iterations: u64,
    /// Output format: `table` or `json`.
    pub format: String,
    /// Runners to compare, separated by commas: `cpython`, `celer`, `go`, `rust`.
    pub compare: String,
}

/// Arguments of the cloud compilation service.
#[derive(Debug)]
pub struct CloudArgs {
    /// Host address to bind.
    pub host: String,
    /// Port to listen on.
    pub port: u16,
    /// Maximum source code size in bytes.
    pub max_source_bytes: usize,
    /// Compilation timeout in seconds.
    pub compile_timeout: u64,
    /// Job time-to-live in seconds.
    pub job_ttl: u64,
}

/// Arguments of `serve`.
#[derive(Debug)]
pub struct ServeArgs {
    /// Module and app variable as `module:app`.
    pub target: String,
    /// Host address to bind.
    pub host: String,
    /// Port to listen on.
    pub port: u16,
    /// Number of worker threads.
    pub workers: usize,
    /// Maximum request body size in bytes.
    pub max_body_size: usize,
    /// Forward every route to the ASGI application.
    pub no_native: bool,
    /// Log level.
    pub log_level: String,
}

/// The commands.
#[derive(Debug)]
pub enum Command {
    /// Compile a Python file to native code.
    Compile(CompileArgs),
    /// Run a Python file through the pipeline.
    Run(RunArgs),
    /// Run the built-in benchmarks.
    Bench(BenchArgs),
    /// Serve an application with compiled native handlers.
    Serve(ServeArgs),
}

} // verus!
