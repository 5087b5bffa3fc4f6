//! The built-in benchmark workloads.

use vstd::prelude::*;

verus! {

broadcast use vstd::string::group_string_axioms;

/// How a compiled workload function returns its result.
#[derive(Debug, Clone, Copy, PartialEq, Eq, Structural)]
pub enum ReturnKind {
    /// A JSON string through the two output parameters.
    Json,
    /// An `i64` returned directly.
    ScalarI64,
}

/// A benchmark workload.
#[derive(Debug, Clone)]
pub struct Workload {
    pub name: String,
    pub python_source: String,
    pub function_name: String,
    /// The argument of the call, when the function takes one.
    pub arg: Option<i64>,
    pub expected_output_contains: String,
    pub return_kind: ReturnKind,
}

/// A kind of workload.
#[derive(Debug, Clone, Copy, PartialEq, Eq, Structural)]
pub enum WorkloadCategory {
    Json,
    Compute,
    BusinessLogic,
}

/// A handler returning a constant dict.
pub const STATIC_JSON_SOURCE: &'static str = "\ndef root() -> dict:\n    return {\"message\": \"hello\"}\n";

/// A handler returning a dict with a parameter in it.
pub const DYNAMIC_JSON_SOURCE: &'static str =
    "\ndef get_item(item_id: int) -> dict:\n    return {\"item_id\": item_id, \"name\": \"test\"}\n";

/// An iterative Fibonacci function.
pub const FIBONACCI_SOURCE: &'static str = "\ndef fib(n: int) -> int:\n    a = 0\n    b = 1\n    i = 0\n    while i < n:\n        t = a + b\n        a = b\n        b = t\n        i = i + 1\n    return a\n";

/// A discount rule called from a handler returning a dict.
pub const BUSINESS_LOGIC_SOURCE: &'static str = "\ndef apply_discount(price: int, threshold: int) -> int:\n    if price > threshold:\n        return price * 90 // 100\n    return price\n\ndef calculate_price(base_price: int) -> dict:\n    final_price = apply_discount(base_price, 50)\n    return {\"price\": final_price, \"currency\": \"USD\"}\n";

/// `w` has exactly these fields.
pub open spec fn describes(
    w: Workload,
    name: Seq<char>,
    source: Seq<char>,
    function: Seq<char>,
    arg: Option<i64>,
    expected: Seq<char>,
    kind: ReturnKind,
) -> bool {
    &&& w.name@ == name
    &&& w.python_source@ == source
    &&& w.function_name@ == function
    &&& w.arg == arg
    &&& w.expected_output_contains@ == expected
    &&& w.return_kind == kind
}

/// The static JSON workload.
pub open spec fn is_static_json(w: Workload) -> bool {
    describes(w, "json-serialize-static"@, STATIC_JSON_SOURCE@, "root"@, Option::None, "\"message\""@, ReturnKind::Json)
}

/// The dynamic JSON workload.
pub open spec fn is_dynamic_json(w: Workload) -> bool {
    describes(
        w,
        "json-serialize-dynamic"@,
        DYNAMIC_JSON_SOURCE@,
        "get_item"@,
        Option::Some(42),
        "\"item_id\""@,
        ReturnKind::Json,
    )
}

/// The Fibonacci workload.
pub open spec fn is_fibonacci(w: Workload) -> bool {
    describes(w, "fibonacci"@, FIBONACCI_SOURCE@, "fib"@, Option::Some(30), "832040"@, ReturnKind::ScalarI64)
}

/// The business-logic workload.
pub open spec fn is_business_logic(w: Workload) -> bool {
    describes(
        w,
        "business-logic"@,
        BUSINESS_LOGIC_SOURCE@,
        "calculate_price"@,
        Option::Some(100),
        "price"@,
        ReturnKind::Json,
    )
}

fn workload(
    name: &str,
    source: &str,
    function: &str,
    arg: Option<i64>,
    expected: &str,
    kind: ReturnKind,
) -> (w: Workload)
    ensures
        describes(w, name@, source@, function@, arg, expected@, kind),
{
    Workload {
        name: name.to_string(),
        python_source: source.to_string(),
        function_name: function.to_string(),
        arg,
        expected_output_contains: expected.to_string(),
        return_kind: kind,
    }
}

impl Workload {
    /// The JSON serialization workloads: a static dict, then a dict with a parameter.
    pub fn builtin_workloads() -> (r: Vec<Workload>)
        ensures
            r@.len() == 2,
            is_static_json(r@[0]),
            is_dynamic_json(r@[1]),
    {
        let mut v: Vec<Workload> = Vec::new();
        v.push(workload("json-serialize-static", STATIC_JSON_SOURCE, "root", None, "\"message\"", ReturnKind::Json));
        v.push(
            workload(
                "json-serialize-dynamic",
                DYNAMIC_JSON_SOURCE,
                "get_item",
                Some(42),
                "\"item_id\"",
                ReturnKind::Json,
            ),
        );
        v
    }

    /// The compute workloads: Fibonacci of 30.
    pub fn compute_workloads() -> (r: Vec<Workload>)
        ensures
            r@.len() == 1,
            is_fibonacci(r@[0]),
    {
        let mut v: Vec<Workload> = Vec::new();
        v.push(workload("fibonacci", FIBONACCI_SOURCE, "fib", Some(30), "832040", ReturnKind::ScalarI64));
        v
    }

    /// The business-logic workloads: a price computed through a discount rule.
    pub fn business_logic_workloads() -> (r: Vec<Workload>)
        ensures
            r@.len() == 1,
            is_business_logic(r@[0]),
    {
        let mut v: Vec<Workload> = Vec::new();
        v.push(
            workload("business-logic", BUSINESS_LOGIC_SOURCE, "calculate_price", Some(100), "price", ReturnKind::Json),
        );
        v
    }

    /// All workloads: the JSON ones, then the compute ones, then the business-logic ones.
    pub fn all_workloads() -> (r: Vec<Workload>)
        ensures
            r@.len() == 4,
            is_static_json(r@[0]),
            is_dynamic_json(r@[1]),
            is_fibonacci(r@[2]),
            is_business_logic(r@[3]),
    {
        let mut all = Self::builtin_workloads();
        let mut compute = Self::compute_workloads();
        let mut business = Self::business_logic_workloads();
        all.append(&mut compute);
        all.append(&mut business);
        all
    }
}

} // verus!
