# celer

Celer compiles a typed subset of Python ahead of time and serves Flask, Django and FastAPI
routes natively. This crate is its verified core, written in Verus: every function in `src/`
carries a `requires`/`ensures` contract that Verus proves. The exceptions are the trusted
wrappers marked `#[verifier::external_body]`, each of which makes one call into std, `dashmap`
or `uuid` and states what that call does: `push_char`, `to_uppercase`, `debug_str`,
`char_is_alphanumeric`, `new_job_id` and the `job_map_*` functions over the `DashMap` of the
job store.

## Layout

- `src/hir/` — the intermediate representation of Python modules: types, expressions,
  statements, functions and classes.
- `src/codegen/` — lowering of that representation into function plans: per expression,
  statement and function, an exact account (`expr_outcome`, `stmt_outcome`,
  `function_outcome`, `module_outcome`) of whether lowering succeeds, which error it reports,
  or where LLVM's instruction builder would panic, and what the plan holds when it succeeds.
  Dict-returning functions become JSON plans (`emit_json`), with how each variable is
  handed to `snprintf` (a boolean as the text `true` or `false`); a list subscript carries the
  index checks (`0 <= idx`, `idx < len`) that the backend turns into a trap.
- `src/adapter/`, `src/flask/`, `src/django/`, `src/fastapi/` — route extraction from
  decorators and `urlpatterns`, path normalisation to `{name}` parameters, and framework
  detection.
- `src/cli/` — command arguments, the report of which functions return JSON, `module:app`
  targets and the plan of native routes for `serve`, benchmark runner selection.
- `src/cloud/` — the compile-job service: the job store over a `DashMap`, module-name
  validation, request admission, and the answer of each endpoint.
- `src/bench/` — benchmark workloads and their runner configuration.
- `src/text.rs` — string helpers shared by the above, with their lemmas.
- `app/` — the program around the library: argument parsing, files, the LLVM backend that
  turns plans into IR and objects, the HTTP server, and the Python and native runners.
- `tests/` — tests of the library, run against the compiled crate.

The laws that relate several functions are public proof functions whose names start with
`law_`.
