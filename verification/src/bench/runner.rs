//! Benchmark settings and the code that drives CPython for a workload.

use vstd::prelude::*;

use super::workloads::{ReturnKind, Workload};
use crate::text::{chars_of, i64_text, int_text, string_from, trim_chars, trimmed};

verus! {

broadcast use vstd::string::group_string_axioms;

/// The measurement of one workload under one runner.
#[derive(Debug, Clone)]
pub struct BenchResult {
    pub workload_name: String,
    pub runner_name: String,
    pub iterations: u64,
    /// The time all iterations took, in nanoseconds.
    pub total_duration_ns: u64,
}

/// How many warm-up and measured iterations each benchmark runs.
#[derive(Debug)]
pub struct BenchRunner {
    warmup_iterations: u64,
    bench_iterations: u64,
}

/// The Python call that runs a workload once: the function applied to its argument, and for
/// JSON workloads the result passed through `json.dumps`.
pub open spec fn call_code(function: Seq<char>, arg: Option<i64>, kind: ReturnKind) -> Seq<char> {
    let call = function + "("@ + match arg {
        Option::Some(v) => int_text(v as int),
        Option::None => Seq::empty(),
    } + ")"@;
    match kind {
        ReturnKind::Json => "json.dumps("@ + call + ")"@,
        ReturnKind::ScalarI64 => call,
    }
}

impl BenchRunner {
    /// A runner with the given iteration counts.
    pub fn new(warmup_iterations: u64, bench_iterations: u64) -> (r: BenchRunner)
        ensures
            r.warmup() == warmup_iterations,
            r.measured() == bench_iterations,
    {
        BenchRunner { warmup_iterations, bench_iterations }
    }

    /// Iterations run before measuring.
    pub closed spec fn warmup(&self) -> u64 {
        self.warmup_iterations
    }

    /// Iterations measured.
    pub closed spec fn measured(&self) -> u64 {
        self.bench_iterations
    }

    /// Iterations run before measuring.
    pub fn warmup_iterations(&self) -> (r: u64)
        ensures
            r == self.warmup(),
    {
        self.warmup_iterations
    }

    /// Iterations measured.
    pub fn bench_iterations(&self) -> (r: u64)
        ensures
            r == self.measured(),
    {
        self.bench_iterations
    }

    /// The module code that defines a workload in CPython: `import json`, then the trimmed
    /// source.
    pub fn build_cpython_bench_code(workload: &Workload) -> (r: String)
        ensures
            r@ == "import json\n"@ + trimmed(workload.python_source@),
    {
        let mut code = "import json\n".to_string();
        let body = string_from(trim_chars(chars_of(workload.python_source.as_str()).as_slice()).as_slice());
        code.append(body.as_str());
        code
    }

    /// The expression that runs a workload once in CPython.
    pub fn build_cpython_call_code(workload: &Workload) -> (r: String)
        ensures
            r@ == call_code(workload.function_name@, workload.arg, workload.return_kind),
    {
        let mut call = workload.function_name.clone();
        call.append("(");
        match workload.arg {
            Some(v) => {
                call.append(i64_text(v).as_str());
            },
            None => {},
        }
        call.append(")");
        match workload.return_kind {
            ReturnKind::Json => {
                let mut code = "json.dumps(".to_string();
                code.append(call.as_str());
                code.append(")");
                code
            },
            ReturnKind::ScalarI64 => call,
        }
    }
}

impl Default for BenchRunner {
    /// A thousand warm-up iterations and a hundred thousand measured ones.
    fn default() -> (r: BenchRunner)
        ensures
            r.warmup() == 1000,
            r.measured() == 100_000,
    {
        Self::new(1000, 100_000)
    }
}

} // verus!
