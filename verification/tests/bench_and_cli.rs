use celer::adapter::{HttpMethod, ParamSource, RouteInfo, RouteParam};
use celer::bench::workloads::{BUSINESS_LOGIC_SOURCE, FIBONACCI_SOURCE, STATIC_JSON_SOURCE};
use celer::bench::{BenchResult, BenchRunner, Reporter, ReturnKind, Workload};
use celer::cli::bench::{binary_name, go_binary_path, parse_runners, rust_binary_path};
use celer::cli::pipeline::extract_json_functions;
use celer::cli::serve::{method_str, parse_target, plan_native_routes, ParamType};
use celer::hir::{Function, Module, Statement, TypeAnnotation};

fn result(w: &str, r: &str) -> BenchResult {
    BenchResult { workload_name: w.into(), runner_name: r.into(), iterations: 10, total_duration_ns: 1000 }
}

#[test]
fn workload_sets() {
    let b = Workload::builtin_workloads();
    assert_eq!(b.len(), 2);
    assert_eq!(b[0].name, "json-serialize-static");
    assert_eq!(b[0].function_name, "root");
    assert_eq!(b[0].arg, None);
    assert_eq!(b[0].expected_output_contains, "\"message\"");
    assert_eq!(b[0].python_source, STATIC_JSON_SOURCE);
    assert_eq!(b[1].arg, Some(42));
    let c = Workload::compute_workloads();
    assert_eq!(c[0].return_kind, ReturnKind::ScalarI64);
    assert_eq!(c[0].expected_output_contains, "832040");
    assert_eq!(c[0].python_source, FIBONACCI_SOURCE);
    let bl = Workload::business_logic_workloads();
    assert_eq!(bl[0].function_name, "calculate_price");
    assert_eq!(bl[0].python_source, BUSINESS_LOGIC_SOURCE);
    let all = Workload::all_workloads();
    let names: Vec<&str> = all.iter().map(|w| w.name.as_str()).collect();
    assert_eq!(names, vec!["json-serialize-static", "json-serialize-dynamic", "fibonacci", "business-logic"]);
}

#[test]
fn cpython_code_for_workloads() {
    let all = Workload::all_workloads();
    assert_eq!(BenchRunner::build_cpython_call_code(&all[0]), "json.dumps(root())");
    assert_eq!(BenchRunner::build_cpython_call_code(&all[1]), "json.dumps(get_item(42))");
    assert_eq!(BenchRunner::build_cpython_call_code(&all[2]), "fib(30)");
    let code = BenchRunner::build_cpython_bench_code(&all[0]);
    assert_eq!(code, "import json\ndef root() -> dict:\n    return {\"message\": \"hello\"}");
    let mut w = all[2].clone();
    w.arg = Some(-7);
    assert_eq!(BenchRunner::build_cpython_call_code(&w), "fib(-7)");
    w.arg = None;
    assert_eq!(BenchRunner::build_cpython_call_code(&w), "fib()");
}

#[test]
fn runner_settings() {
    let r = BenchRunner::new(3, 5);
    assert_eq!(r.warmup_iterations(), 3);
    assert_eq!(r.bench_iterations(), 5);
    let d = BenchRunner::default();
    assert_eq!(d.warmup_iterations(), 1000);
    assert_eq!(d.bench_iterations(), 100_000);
}

#[test]
fn report_grouping() {
    let results = vec![result("a", "celer-aot"), result("b", "cpython"), result("a", "cpython"), result("a", "go")];
    assert_eq!(Reporter::workload_order(&results), vec!["a", "b"]);
    assert_eq!(Reporter::results_of(&results, "a"), vec![0, 2, 3]);
    assert_eq!(Reporter::baseline(&results, "a"), Some(2));
    assert_eq!(Reporter::baseline(&results, "c"), None);
}

#[test]
fn runner_list_and_binaries() {
    assert_eq!(parse_runners("cpython, celer ,go"), vec!["cpython", "celer", "go"]);
    assert_eq!(parse_runners(""), vec![""]);
    assert_eq!(parse_runners("a,,b"), vec!["a", "", "b"]);
    assert_eq!(binary_name("json-serialize-static"), "json_serialize_static");
    assert_eq!(go_binary_path("fib"), "benches/go/cmd/fib/fib");
    assert_eq!(rust_binary_path("fib"), "benches/rust/target/release/fib");
}

#[test]
fn serve_targets() {
    assert_eq!(parse_target("main:app"), Ok(("main.py".to_string(), "app".to_string())));
    assert_eq!(parse_target("pkg/main.py:api:v2"), Ok(("pkg/main.py".to_string(), "api:v2".to_string())));
    assert_eq!(
        parse_target("main"),
        Err("expected format `module:app` (e.g., `main:app`), got `main`".to_string())
    );
    assert_eq!(method_str(&HttpMethod::Delete), "DELETE");
}

fn handler(name: &str, ret: TypeAnnotation) -> Function {
    Function { name: name.into(), params: vec![], return_type: ret, body: vec![], decorators: vec![], is_async: false }
}

#[test]
fn json_functions_of_a_module() {
    let dict = || TypeAnnotation::Dict(Box::new(TypeAnnotation::Str), Box::new(TypeAnnotation::Any));
    let module = Module {
        name: "m".into(),
        path: "m.py".into(),
        body: vec![
            Statement::FunctionDef(handler("a", dict())),
            Statement::FunctionDef(handler("b", TypeAnnotation::Int)),
            Statement::Pass,
            Statement::FunctionDef(handler("a", dict())),
            Statement::FunctionDef(handler("c", dict())),
        ],
    };
    assert_eq!(extract_json_functions(&module), vec!["a", "c"]);
}

#[test]
fn native_route_plan() {
    let route = |m, p: &str, h: &str, params: Vec<RouteParam>| RouteInfo {
        method: m,
        path: p.into(),
        handler: handler(h, TypeAnnotation::Int),
        response_model: None,
        params,
    };
    let routes = vec![
        route(
            HttpMethod::Get,
            "/items/{id}/{slug}",
            "get_item",
            vec![
                RouteParam { name: "id".into(), source: ParamSource::Path, ty: TypeAnnotation::Int, required: true },
                RouteParam { name: "q".into(), source: ParamSource::Query, ty: TypeAnnotation::Str, required: false },
                RouteParam { name: "slug".into(), source: ParamSource::Path, ty: TypeAnnotation::Str, required: true },
            ],
        ),
        route(HttpMethod::Post, "/other", "slow", vec![]),
        route(HttpMethod::Put, "/json", "as_json", vec![]),
    ];
    let compiled = vec!["get_item".to_string(), "as_json".to_string()];
    let json = vec!["as_json".to_string()];
    let plan = plan_native_routes(&routes, &compiled, &json);
    assert_eq!(plan.native_count, 2);
    assert_eq!(plan.asgi_count, 1);
    assert_eq!(plan.routes[0].method, "GET");
    assert_eq!(plan.routes[0].path_params, vec!["id", "slug"]);
    assert_eq!(plan.routes[0].param_types, vec![ParamType::Int, ParamType::Str]);
    assert!(!plan.routes[0].is_json);
    assert_eq!(plan.routes[1].handler_name, "as_json");
    assert_eq!(plan.routes[1].method, "PUT");
    assert!(plan.routes[1].is_json);
}
