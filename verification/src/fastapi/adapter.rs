use vstd::prelude::*;

use super::error::FastApiError;
use super::route::{fastapi_method_name, HttpMethod, RouteInfo};
use crate::adapter::pattern::{extract_quoted, quoted_path};
use crate::adapter::route::{ascii_upper, views};
use crate::hir::{Function, Module, Statement};
use crate::text::{chars_of, contains, contains_seq};

verus! {

broadcast use vstd::string::group_string_axioms;

/// Detects FastAPI routes in a module and extracts them.
pub struct FastApiAdapter;

/// The method that a FastAPI decorator names: the first of `.get`, `.post`, `.put`, `.delete`,
/// `.patch` that it contains.
pub open spec fn decorator_method(d: Seq<char>) -> Option<HttpMethod> {
    if contains_seq(d, ".get"@) {
        Option::Some(HttpMethod::Get)
    } else if contains_seq(d, ".post"@) {
        Option::Some(HttpMethod::Post)
    } else if contains_seq(d, ".put"@) {
        Option::Some(HttpMethod::Put)
    } else if contains_seq(d, ".delete"@) {
        Option::Some(HttpMethod::Delete)
    } else if contains_seq(d, ".patch"@) {
        Option::Some(HttpMethod::Patch)
    } else {
        Option::None
    }
}

/// The decorator attributes that name a method, in the order they are looked for.
pub open spec fn method_attributes() -> Seq<Seq<char>> {
    seq!["get"@, "post"@, "put"@, "delete"@, "patch"@]
}

/// The method of a decorator's route is named by the first of the attributes `.get`, `.post`,
/// `.put`, `.delete`, `.patch` that the decorator contains, upper-cased; a decorator that
/// contains none of them declares no route.
pub proof fn law_fastapi_method_is_attribute(d: Seq<char>, i: int)
    requires
        0 <= i < method_attributes().len(),
        contains_seq(d, seq!['.'] + method_attributes()[i]),
        forall|j: int| 0 <= j < i ==> !contains_seq(d, seq!['.'] + #[trigger] method_attributes()[j]),
    ensures
        decorator_route(d) matches Option::Some((m, _)) && fastapi_method_name(m) == method_attributes()[i].map_values(
            |c: char| ascii_upper(c),
        ),
{
    lemma_method_attribute_texts();
    let a = method_attributes();
    if i > 0 {
        assert(!contains_seq(d, seq!['.'] + a[0]));
    }
    if i > 1 {
        assert(!contains_seq(d, seq!['.'] + a[1]));
    }
    if i > 2 {
        assert(!contains_seq(d, seq!['.'] + a[2]));
    }
    if i > 3 {
        assert(!contains_seq(d, seq!['.'] + a[3]));
    }
}

/// A decorator that contains none of the method attributes declares no route.
pub proof fn law_fastapi_no_attribute_no_route(d: Seq<char>)
    requires
        forall|j: int| 0 <= j < method_attributes().len() ==> !contains_seq(d, seq!['.'] + #[trigger] method_attributes()[j]),
    ensures
        decorator_route(d) is None,
{
    lemma_method_attribute_texts();
    let a = method_attributes();
    assert(!contains_seq(d, seq!['.'] + a[0]));
    assert(!contains_seq(d, seq!['.'] + a[1]));
    assert(!contains_seq(d, seq!['.'] + a[2]));
    assert(!contains_seq(d, seq!['.'] + a[3]));
    assert(!contains_seq(d, seq!['.'] + a[4]));
}

/// The attribute texts, with their leading `.` and upper-cased.
proof fn lemma_method_attribute_texts()
    ensures
        seq!['.'] + method_attributes()[0] == ".get"@,
        seq!['.'] + method_attributes()[1] == ".post"@,
        seq!['.'] + method_attributes()[2] == ".put"@,
        seq!['.'] + method_attributes()[3] == ".delete"@,
        seq!['.'] + method_attributes()[4] == ".patch"@,
        method_attributes()[0].map_values(|c: char| ascii_upper(c)) == "GET"@,
        method_attributes()[1].map_values(|c: char| ascii_upper(c)) == "POST"@,
        method_attributes()[2].map_values(|c: char| ascii_upper(c)) == "PUT"@,
        method_attributes()[3].map_values(|c: char| ascii_upper(c)) == "DELETE"@,
        method_attributes()[4].map_values(|c: char| ascii_upper(c)) == "PATCH"@,
{
    reveal_strlit("get");
    reveal_strlit("post");
    reveal_strlit("put");
    reveal_strlit("delete");
    reveal_strlit("patch");
    reveal_strlit(".get");
    reveal_strlit(".post");
    reveal_strlit(".put");
    reveal_strlit(".delete");
    reveal_strlit(".patch");
    reveal_strlit("GET");
    reveal_strlit("POST");
    reveal_strlit("PUT");
    reveal_strlit("DELETE");
    reveal_strlit("PATCH");
    let a = method_attributes();
    assert(seq!['.'] + a[0] =~= ".get"@);
    assert(seq!['.'] + a[1] =~= ".post"@);
    assert(seq!['.'] + a[2] =~= ".put"@);
    assert(seq!['.'] + a[3] =~= ".delete"@);
    assert(seq!['.'] + a[4] =~= ".patch"@);
    assert(a[0].map_values(|c: char| ascii_upper(c)) =~= "GET"@);
    assert(a[1].map_values(|c: char| ascii_upper(c)) =~= "POST"@);
    assert(a[2].map_values(|c: char| ascii_upper(c)) =~= "PUT"@);
    assert(a[3].map_values(|c: char| ascii_upper(c)) =~= "DELETE"@);
    assert(a[4].map_values(|c: char| ascii_upper(c)) =~= "PATCH"@);
}

/// The route that one decorator declares: its method, and its quoted path or `/`.
pub open spec fn decorator_route(d: Seq<char>) -> Option<(HttpMethod, Seq<char>)> {
    match decorator_method(d) {
        Option::Some(m) => Option::Some(
            (
                m,
                match quoted_path(d) {
                    Option::Some(p) => p,
                    Option::None => "/"@,
                },
            ),
        ),
        Option::None => Option::None,
    }
}

/// The route of a function: that of its first decorator that declares one.
pub open spec fn first_route(ds: Seq<Seq<char>>) -> Option<(HttpMethod, Seq<char>)>
    decreases ds.len(),
{
    if ds.len() == 0 {
        Option::None
    } else {
        match decorator_route(ds[0]) {
            Option::Some(r) => Option::Some(r),
            Option::None => first_route(ds.drop_first()),
        }
    }
}

/// The routes of the first `n` statements, with the index of each handler's statement.
pub open spec fn body_routes(body: Seq<Statement>, n: int) -> Seq<(HttpMethod, Seq<char>, int)>
    decreases n,
{
    if n <= 0 {
        Seq::empty()
    } else {
        let before = body_routes(body, n - 1);
        match body[n - 1] {
            Statement::FunctionDef(f) => match first_route(views(f.decorators@)) {
                Option::Some((m, p)) => before.push((m, p, n - 1)),
                Option::None => before,
            },
            _ => before,
        }
    }
}

/// `r` is a route for `func` with method and path `expected`.
pub open spec fn route_for(r: RouteInfo, expected: (HttpMethod, Seq<char>), func: Function) -> bool {
    &&& r.method == expected.0
    &&& r.path@ == expected.1
    &&& r.handler.same(func)
    &&& r.response_model is None
}

/// `routes` are the routes that `expected` lists, with handlers taken from `body`.
pub open spec fn routes_match(
    routes: Seq<RouteInfo>,
    expected: Seq<(HttpMethod, Seq<char>, int)>,
    body: Seq<Statement>,
) -> bool {
    &&& routes.len() == expected.len()
    &&& forall|i: int| 0 <= i < routes.len() ==> {
        &&& 0 <= #[trigger] expected[i].2 < body.len()
        &&& body[expected[i].2] is FunctionDef
        &&& route_for(routes[i], (expected[i].0, expected[i].1), body[expected[i].2]->FunctionDef_0)
    }
}

impl FastApiAdapter {
    /// Scans a module for FastAPI route decorators and extracts one route per decorated
    /// function, in order.
    pub fn extract_routes(module: &Module) -> (r: Result<Vec<RouteInfo>, FastApiError>)
        ensures
            r matches Ok(routes) && routes_match(
                routes@,
                body_routes(module.body@, module.body@.len() as int),
                module.body@,
            ),
    {
        let mut routes: Vec<RouteInfo> = Vec::new();
        let mut i: usize = 0;
        while i < module.body.len()
            invariant
                i <= module.body@.len(),
                routes_match(routes@, body_routes(module.body@, i as int), module.body@),
            decreases module.body@.len() - i,
        {
            let ghost before = routes@;
            if let Statement::FunctionDef(func) = &module.body[i] {
                match Self::try_extract_route(func) {
                    Ok(Some(route)) => {
                        routes.push(route);
                        assert(routes@[before.len() as int] == route);
                    },
                    Ok(None) => {},
                    Err(e) => {
                        return Err(e);
                    },
                }
            }
            proof {
                let expected = body_routes(module.body@, i + 1);
                let prev = body_routes(module.body@, i as int);
                assert forall|j: int| 0 <= j < before.len() implies #[trigger] expected[j] == prev[j]
                    && routes@[j] == before[j] by {}
            }
            i = i + 1;
        }
        Ok(routes)
    }

    fn try_extract_route(func: &Function) -> (r: Result<Option<RouteInfo>, FastApiError>)
        ensures
            r matches Ok(o) && match first_route(views(func.decorators@)) {
                Option::Some(e) => o matches Some(route) && route_for(route, e, *func),
                Option::None => o is None,
            },
    {
        let mut i: usize = 0;
        assert(views(func.decorators@).skip(0) == views(func.decorators@));
        while i < func.decorators.len()
            invariant
                i <= func.decorators@.len(),
                first_route(views(func.decorators@)) == first_route(
                    views(func.decorators@).skip(i as int),
                ),
            decreases func.decorators@.len() - i,
        {
            let ghost ds = views(func.decorators@).skip(i as int);
            assert(ds[0] == func.decorators@[i as int]@);
            assert(ds.drop_first() == views(func.decorators@).skip(i + 1));
            match Self::parse_decorator(func.decorators[i].as_str(), func) {
                Ok(Some(route)) => {
                    return Ok(Some(route));
                },
                Ok(None) => {},
                Err(e) => {
                    return Err(e);
                },
            }
            i = i + 1;
        }
        Ok(None)
    }

    fn parse_decorator(decorator: &str, func: &Function) -> (r: Result<Option<RouteInfo>, FastApiError>)
        ensures
            r matches Ok(o) && match decorator_route(decorator@) {
                Option::Some(e) => o matches Some(route) && route_for(route, e, *func),
                Option::None => o is None,
            },
    {
        let d = chars_of(decorator);
        let method = if contains(d.as_slice(), ".get") {
            Some(HttpMethod::Get)
        } else if contains(d.as_slice(), ".post") {
            Some(HttpMethod::Post)
        } else if contains(d.as_slice(), ".put") {
            Some(HttpMethod::Put)
        } else if contains(d.as_slice(), ".delete") {
            Some(HttpMethod::Delete)
        } else if contains(d.as_slice(), ".patch") {
            Some(HttpMethod::Patch)
        } else {
            None
        };
        match method {
            Some(m) => {
                let path = match Self::extract_path(decorator) {
                    Some(p) => p,
                    None => "/".to_string(),
                };
                Ok(Some(RouteInfo::new(m, path.as_str(), func.duplicate())))
            },
            None => Ok(None),
        }
    }

    fn extract_path(decorator: &str) -> (r: Option<String>)
        ensures
            match r {
                Option::Some(p) => quoted_path(decorator@) == Option::Some(p@),
                Option::None => quoted_path(decorator@) is None,
            },
    {
        extract_quoted(decorator)
    }
}

} // verus!
