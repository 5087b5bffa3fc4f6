use vstd::prelude::*;

use super::error::DjangoError;
use super::patterns::{normalize_django_path, normalized_django_path};
use crate::adapter::route::params_describe;
use crate::adapter::{AdapterError, FrameworkAdapter, HttpMethod, RouteInfo};
use crate::hir::{Expression, Function, Module, Statement};
use crate::text::str_equal;

verus! {

broadcast use vstd::string::group_string_axioms;

/// Why a Django module's routes could not be extracted.
pub enum DjangoFailure {
    NoUrlPatterns,
    NotAList,
    TooFewArguments,
    PatternNotString,
    ViewNotName,
    ViewNotFound(Seq<char>),
}

/// The text of the `InvalidUrlPattern` error for a failure.
pub open spec fn failure_text(f: DjangoFailure) -> Seq<char> {
    match f {
        DjangoFailure::NotAList => "urlpatterns must be a list"@,
        DjangoFailure::TooFewArguments => "path() requires at least 2 arguments"@,
        DjangoFailure::PatternNotString => "first argument to path() must be a string literal"@,
        DjangoFailure::ViewNotName => "second argument to path() must be a function reference"@,
        DjangoFailure::ViewNotFound(name) => "view function '"@ + name + "' not found"@,
        DjangoFailure::NoUrlPatterns => Seq::empty(),
    }
}

/// `e` is the error that reports failure `f`.
pub open spec fn reports(e: DjangoError, f: DjangoFailure) -> bool {
    match f {
        DjangoFailure::NoUrlPatterns => e == DjangoError::NoUrlPatterns,
        _ => e matches DjangoError::InvalidUrlPattern(s) && s@ == failure_text(f),
    }
}

/// Index of the first statement that assigns to `urlpatterns`.
pub open spec fn urlpatterns_index(body: Seq<Statement>) -> Option<int> {
    if exists|k: int| 0 <= k < body.len() && is_urlpatterns(#[trigger] body[k]) {
        Option::Some(choose|k: int| 0 <= k < body.len() && is_urlpatterns(body[k]) && forall|j: int|
            0 <= j < k ==> !is_urlpatterns(#[trigger] body[j]))
    } else {
        Option::None
    }
}

/// The statement assigns to `urlpatterns`.
pub open spec fn is_urlpatterns(s: Statement) -> bool {
    s matches Statement::Assign { target, .. } && target@ == "urlpatterns"@
}

/// Index of the first function definition named `name`.
pub open spec fn view_index(body: Seq<Statement>, name: Seq<char>) -> Option<int> {
    if exists|k: int| 0 <= k < body.len() && defines(#[trigger] body[k], name) {
        Option::Some(choose|k: int| 0 <= k < body.len() && defines(body[k], name) && forall|j: int|
            0 <= j < k ==> !defines(#[trigger] body[j], name))
    } else {
        Option::None
    }
}

/// The statement defines a function named `name`.
pub open spec fn defines(s: Statement, name: Seq<char>) -> bool {
    s matches Statement::FunctionDef(f) && f.name@ == name
}

#[verifier::opaque]
/// What one element of `urlpatterns` yields: nothing when it is no `path(...)` call, else the
/// route's pattern and the index of its view function, or the failure.
pub open spec fn path_call_outcome(e: Expression, body: Seq<Statement>) -> Result<
    Option<(Seq<char>, int)>,
    DjangoFailure,
> {
    match e {
        Expression::Call { func, args, .. } => if !(*func matches Expression::Name { id, .. } && id@
            == "path"@) {
            Result::Ok(Option::None)
        } else if args@.len() < 2 {
            Result::Err(DjangoFailure::TooFewArguments)
        } else if !(args@[0] is StringLiteral) {
            Result::Err(DjangoFailure::PatternNotString)
        } else if !(args@[1] is Name) {
            Result::Err(DjangoFailure::ViewNotName)
        } else {
            let view = args@[1]->Name_id@;
            match view_index(body, view) {
                Option::Some(k) => Result::Ok(Option::Some((args@[0]->StringLiteral_0@, k))),
                Option::None => Result::Err(DjangoFailure::ViewNotFound(view)),
            }
        },
        _ => Result::Ok(Option::None),
    }
}

/// What a list of `urlpatterns` elements yields: the routes in order, or the first failure.
pub open spec fn elements_outcome(els: Seq<Expression>, body: Seq<Statement>) -> Result<
    Seq<(Seq<char>, int)>,
    DjangoFailure,
>
    decreases els.len(),
{
    if els.len() == 0 {
        Result::Ok(Seq::empty())
    } else {
        match elements_outcome(els.drop_last(), body) {
            Result::Err(f) => Result::Err(f),
            Result::Ok(prev) => match path_call_outcome(els.last(), body) {
                Result::Err(f) => Result::Err(f),
                Result::Ok(Option::None) => Result::Ok(prev),
                Result::Ok(Option::Some(x)) => Result::Ok(prev.push(x)),
            },
        }
    }
}

/// What `extract_routes` yields for a module body: the (pattern, view index) pairs of its
/// routes, or the first failure.
pub open spec fn module_outcome(body: Seq<Statement>) -> Result<Seq<(Seq<char>, int)>, DjangoFailure> {
    match urlpatterns_index(body) {
        Option::None => Result::Err(DjangoFailure::NoUrlPatterns),
        Option::Some(k) => match body[k]->Assign_value {
            Expression::List { elements, .. } => elements_outcome(elements@, body),
            _ => Result::Err(DjangoFailure::NotAList),
        },
    }
}

#[verifier::opaque]
/// `r` is the GET route of pattern `pattern` handled by the function defined at `body[k]`.
pub open spec fn route_from(r: RouteInfo, pattern: Seq<char>, k: int, body: Seq<Statement>) -> bool {
    &&& 0 <= k < body.len()
    &&& body[k] is FunctionDef
    &&& r.method == HttpMethod::Get
    &&& r.path@ == normalized_django_path(pattern)
    &&& r.handler.same(body[k]->FunctionDef_0)
    &&& r.response_model is None
    &&& params_describe(r.params@, r.handler, r.path@)
}

/// `routes` are the routes that `expected` lists.
pub open spec fn routes_from(routes: Seq<RouteInfo>, expected: Seq<(Seq<char>, int)>, body: Seq<Statement>) -> bool {
    &&& routes.len() == expected.len()
    &&& forall|i: int| 0 <= i < routes.len() ==> route_from(#[trigger] routes[i], expected[i].0, expected[i].1, body)
}

/// The whole contract of route extraction on `body`.
pub open spec fn extraction_correct(r: Result<Vec<RouteInfo>, DjangoError>, body: Seq<Statement>) -> bool {
    match module_outcome(body) {
        Result::Ok(expected) => r matches Ok(routes) && routes_from(routes@, expected, body),
        Result::Err(f) => r matches Err(e) && reports(e, f),
    }
}

/// The module assigns `urlpatterns` somewhere.
pub open spec fn django_detected(m: Module) -> bool {
    exists|k: int| 0 <= k < m.body@.len() && is_urlpatterns(#[trigger] m.body@[k])
}

/// Detects Django modules and extracts their routes.
pub struct DjangoAdapter;

fn is_urlpatterns_stmt(s: &Statement) -> (r: bool)
    ensures
        r == is_urlpatterns(*s),
{
    match s {
        Statement::Assign { target, .. } => str_equal(target.as_str(), "urlpatterns"),
        _ => false,
    }
}

/// Whether the module assigns `urlpatterns`.
pub fn detect_django(module: &Module) -> (r: bool)
    ensures
        r == django_detected(*module),
{
    let mut i: usize = 0;
    while i < module.body.len()
        invariant
            i <= module.body@.len(),
            forall|j: int| 0 <= j < i ==> !is_urlpatterns(#[trigger] module.body@[j]),
        decreases module.body@.len() - i,
    {
        if is_urlpatterns_stmt(&module.body[i]) {
            return true;
        }
        i = i + 1;
    }
    false
}

/// Index of the first assignment to `urlpatterns`.
fn find_urlpatterns(module: &Module) -> (r: Option<usize>)
    ensures
        match r {
            Option::Some(k) => urlpatterns_index(module.body@) == Option::Some(k as int) && k
                < module.body@.len() && is_urlpatterns(module.body@[k as int]),
            Option::None => urlpatterns_index(module.body@) is None,
        },
{
    let mut i: usize = 0;
    while i < module.body.len()
        invariant
            i <= module.body@.len(),
            forall|j: int| 0 <= j < i ==> !is_urlpatterns(#[trigger] module.body@[j]),
        decreases module.body@.len() - i,
    {
        if is_urlpatterns_stmt(&module.body[i]) {
            proof {
                let k = urlpatterns_index(module.body@)->0;
                assert(is_urlpatterns(module.body@[i as int]));
                if k < i {
                } else if k > i {
                }
            }
            return Some(i);
        }
        i = i + 1;
    }
    None
}

/// Index of the first function named `name` in the module.
fn find_view(module: &Module, name: &str) -> (r: Option<usize>)
    ensures
        match r {
            Option::Some(k) => view_index(module.body@, name@) == Option::Some(k as int) && k
                < module.body@.len() && defines(module.body@[k as int], name@),
            Option::None => view_index(module.body@, name@) is None,
        },
{
    let mut i: usize = 0;
    while i < module.body.len()
        invariant
            i <= module.body@.len(),
            forall|j: int| 0 <= j < i ==> !defines(#[trigger] module.body@[j], name@),
        decreases module.body@.len() - i,
    {
        if let Statement::FunctionDef(f) = &module.body[i] {
            if str_equal(f.name.as_str(), name) {
                proof {
                    let k = view_index(module.body@, name@)->0;
                    assert(defines(module.body@[i as int], name@));
                    if k < i {
                    } else if k > i {
                    }
                }
                return Some(i);
            }
        }
        i = i + 1;
    }
    None
}

/// The error for an invalid URL pattern with the given message.
fn invalid(message: &str) -> (e: DjangoError)
    ensures
        e matches DjangoError::InvalidUrlPattern(s) && s@ == message@,
{
    DjangoError::InvalidUrlPattern(message.to_string())
}

/// Reads one `path("pattern/", view)` call into a route.
fn parse_path_call(expr: &Expression, module: &Module) -> (r: Result<Option<RouteInfo>, DjangoError>)
    ensures
        match path_call_outcome(*expr, module.body@) {
            Result::Ok(Option::None) => r matches Ok(None),
            Result::Ok(Option::Some((p, k))) => r matches Ok(Some(route)) && route_from(route, p, k, module.body@),
            Result::Err(f) => r matches Err(e) && reports(e, f),
        },
{
    proof {
        reveal(path_call_outcome);
        reveal(route_from);
        reveal_strlit("path");
        reveal_strlit("path() requires at least 2 arguments");
        reveal_strlit("first argument to path() must be a string literal");
        reveal_strlit("second argument to path() must be a function reference");
    }
    let (func, args) = match expr {
        Expression::Call { func, args, .. } => (func, args),
        _ => {
            return Ok(None);
        },
    };
    let is_path = match &**func {
        Expression::Name { id, .. } => str_equal(id.as_str(), "path"),
        _ => false,
    };
    if !is_path {
        return Ok(None);
    }
    if args.len() < 2 {
        return Err(invalid("path() requires at least 2 arguments"));
    }
    let pattern = match &args[0] {
        Expression::StringLiteral(s) => s,
        _ => {
            return Err(invalid("first argument to path() must be a string literal"));
        },
    };
    let view_name = match &args[1] {
        Expression::Name { id, .. } => id,
        _ => {
            return Err(invalid("second argument to path() must be a function reference"));
        },
    };
    let k = match find_view(module, view_name.as_str()) {
        Some(k) => k,
        None => {
            let mut msg = "view function '".to_string();
            msg.append(view_name.as_str());
            msg.append("' not found");
            proof {
                reveal_strlit("view function '");
                reveal_strlit("' not found");
            }
            return Err(DjangoError::InvalidUrlPattern(msg));
        },
    };
    let handler = match &module.body[k] {
        Statement::FunctionDef(f) => f,
        _ => {
            proof { assert(false); }
            return Ok(None);
        },
    };
    let (normalized_path, _path_params) = normalize_django_path(pattern.as_str());
    Ok(Some(RouteInfo::new(HttpMethod::Get, normalized_path.as_str(), handler.duplicate())))
}

/// Extracts the routes of Django-style `urlpatterns = [path(...)]` declarations, in order.
/// All Django routes are GET routes: method dispatch happens in the view.
pub fn extract_routes(module: &Module) -> (r: Result<Vec<RouteInfo>, DjangoError>)
    ensures
        extraction_correct(r, module.body@),
{
    let k = match find_urlpatterns(module) {
        Some(k) => k,
        None => {
            return Err(DjangoError::NoUrlPatterns);
        },
    };
    let elements = match &module.body[k] {
        Statement::Assign { value: Expression::List { elements, .. }, .. } => elements,
        _ => {
            proof { reveal_strlit("urlpatterns must be a list"); }
            return Err(invalid("urlpatterns must be a list"));
        },
    };
    assert(module_outcome(module.body@) == elements_outcome(elements@, module.body@));
    extract_from_elements(elements, module)
}

/// The routes of the elements of `urlpatterns`, or the first failure.
fn extract_from_elements(elements: &Vec<Expression>, module: &Module) -> (r: Result<Vec<RouteInfo>, DjangoError>)
    ensures
        match elements_outcome(elements@, module.body@) {
            Result::Ok(expected) => r matches Ok(routes) && routes_from(routes@, expected, module.body@),
            Result::Err(f) => r matches Err(e) && reports(e, f),
        },
{
    let mut routes: Vec<RouteInfo> = Vec::new();
    let mut i: usize = 0;
    assert(elements@.take(0) == Seq::<Expression>::empty());
    while i < elements.len()
        invariant
            i <= elements@.len(),
            elements_outcome(elements@.take(i as int), module.body@) matches Result::Ok(exp)
                && routes_from(routes@, exp, module.body@),
        decreases elements@.len() - i,
    {
        proof {
            assert(elements@.take(i + 1).drop_last() == elements@.take(i as int));
            assert(elements@.take(i + 1).last() == elements@[i as int]);
        }
        let ghost before = routes@;
        match parse_path_call(&elements[i], module) {
            Ok(Some(route)) => {
                routes.push(route);
                proof {
                    let exp = elements_outcome(elements@.take(i + 1), module.body@)->Ok_0;
                    assert forall|j: int| 0 <= j < routes@.len() implies route_from(
                        #[trigger] routes@[j],
                        exp[j].0,
                        exp[j].1,
                        module.body@,
                    ) by {
                        if j < before.len() {
                            assert(routes@[j] == before[j]);
                        }
                    }
                }
            },
            Ok(None) => {},
            Err(e) => {
                proof {
                    lemma_failure_persists(elements@, (i + 1) as int, module.body@);
                }
                return Err(e);
            },
        }
        i = i + 1;
    }
    assert(elements@.take(elements@.len() as int) == elements@);
    Ok(routes)
}

impl FrameworkAdapter for DjangoAdapter {
    open spec fn detects(&self, module: Module) -> bool {
        django_detected(module)
    }

    open spec fn can_extract(&self, module: Module) -> bool {
        true
    }

    open spec fn extracts(&self, module: Module, r: Result<Vec<RouteInfo>, AdapterError>) -> bool {
        match module_outcome(module.body@) {
            Result::Ok(expected) => r matches Ok(routes) && routes_from(routes@, expected, module.body@),
            Result::Err(f) => r matches Err(AdapterError::ExtractionFailed(m)) && exists|e: DjangoError|
                reports(e, f) && m@ == e.text(),
        }
    }

    open spec fn framework_name(&self) -> Seq<char> {
        "Django"@
    }

    fn name(&self) -> (r: &'static str) {
        proof {
            reveal_strlit("Django");
        }
        "Django"
    }

    fn detect(&self, module: &Module) -> (r: bool) {
        detect_django(module)
    }

    fn extract_routes(&self, module: &Module) -> (r: Result<Vec<RouteInfo>, AdapterError>) {
        match extract_routes(module) {
            Ok(routes) => Ok(routes),
            Err(e) => {
                let m = e.describe();
                Err(AdapterError::ExtractionFailed(m))
            },
        }
    }
}

/// Once a prefix of the elements fails, every longer prefix fails the same way.
proof fn lemma_failure_persists(els: Seq<Expression>, n: int, body: Seq<Statement>)
    requires
        0 <= n <= els.len(),
        elements_outcome(els.take(n), body) is Err,
    ensures
        elements_outcome(els, body) == elements_outcome(els.take(n), body),
    decreases els.len() - n,
{
    if n < els.len() {
        assert(els.take(n + 1).drop_last() == els.take(n));
        lemma_failure_persists(els, n + 1, body);
    } else {
        assert(els.take(n) == els);
    }
}

} // verus!
