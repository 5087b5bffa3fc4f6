use vstd::prelude::*;

use super::error::FlaskError;
use super::route::normalize_flask_path;
use crate::adapter::pattern::{extract_quoted, normalize_angles, quoted_path};
use crate::adapter::route::{ascii_upper, loose_method, method_name, params_describe, views};
use crate::adapter::{AdapterError, FrameworkAdapter, HttpMethod, RouteInfo};
use crate::hir::{Function, Module, Statement};
use crate::text::{
    chars_of, contains, contains_seq, find_char, find_char_from, find_seq, first_index,
    first_occurrence, lemma_first_index, lemma_first_occurrence_from, string_from, sub_chars,
    trim_char_chars, trim_chars, trimmed, trimmed_char,
};

verus! {

broadcast use vstd::string::group_string_axioms;

/// Detects Flask routes in a module and extracts them.
pub struct FlaskAdapter;

/// The HTTP method that a shorthand decorator such as `app.get(...)` names; `.route`
/// decorators name none.
pub open spec fn shorthand_method(d: Seq<char>) -> Option<HttpMethod> {
    if contains_seq(d, ".route"@) {
        Option::None
    } else if contains_seq(d, ".get"@) {
        Option::Some(HttpMethod::Get)
    } else if contains_seq(d, ".post"@) {
        Option::Some(HttpMethod::Post)
    } else if contains_seq(d, ".put"@) {
        Option::Some(HttpMethod::Put)
    } else if contains_seq(d, ".delete"@) {
        Option::Some(HttpMethod::Delete)
    } else if contains_seq(d, ".patch"@) {
        Option::Some(HttpMethod::Patch)
    } else {
        Option::None
    }
}

/// The pieces of `s` between commas.
pub open spec fn split_commas(s: Seq<char>) -> Seq<Seq<char>>
    decreases s.len(),
{
    match first_index(s, ',') {
        Option::Some(k) => {
            proof {
                lemma_first_index(s, ',');
            }
            seq![s.take(k)] + split_commas(s.skip(k + 1))
        },
        Option::None => seq![s],
    }
}

/// The methods named by comma-separated, possibly quoted, method names; names that are no
/// method are skipped.
pub open spec fn methods_of_pieces(pieces: Seq<Seq<char>>) -> Seq<HttpMethod>
    decreases pieces.len(),
{
    if pieces.len() == 0 {
        Seq::empty()
    } else {
        let rest = methods_of_pieces(pieces.drop_last());
        let name = trimmed_char(trimmed_char(trimmed(pieces.last()), '"'), '\'');
        match loose_method(name) {
            Option::Some(m) => rest.push(m),
            Option::None => rest,
        }
    }
}

/// Where the bracketed method list of a decorator lies: the text after the first `methods`,
/// between the first `[` and the first `]` that follow it.
pub open spec fn methods_bounds(d: Seq<char>) -> Option<(int, int, int)> {
    match first_occurrence(d, "methods"@) {
        Option::Some(m) => {
            let rest = d.skip(m);
            match (first_index(rest, '['), first_index(rest, ']')) {
                (Option::Some(b), Option::Some(e)) => Option::Some((m, b, e)),
                _ => Option::None,
            }
        },
        Option::None => Option::None,
    }
}

/// The brackets of a method list are in order: when both are there, the first `]` comes
/// after the first `[`.
pub open spec fn brackets_ordered(d: Seq<char>) -> bool {
    match methods_bounds(d) {
        Option::Some((m, b, e)) => b < e,
        Option::None => true,
    }
}

/// The method list of a decorator can be read where it is read at all: a `.route` decorator
/// has its brackets in order.
pub open spec fn methods_readable(d: Seq<char>) -> bool {
    contains_seq(d, ".route"@) ==> brackets_ordered(d)
}

/// The methods listed in `methods=[...]`.
pub open spec fn listed_methods(d: Seq<char>) -> Seq<HttpMethod> {
    match methods_bounds(d) {
        Option::Some((m, b, e)) => methods_of_pieces(split_commas(d.skip(m).subrange(b + 1, e))),
        Option::None => Seq::empty(),
    }
}

/// The normalized path of a decorator; `/` when it quotes none.
pub open spec fn decorator_route_path(d: Seq<char>) -> Seq<char> {
    match quoted_path(d) {
        Option::Some(p) => normalize_angles(p).0,
        Option::None => normalize_angles("/"@).0,
    }
}

/// The (method, path) pairs that one decorator declares.
pub open spec fn decorator_routes(d: Seq<char>) -> Seq<(HttpMethod, Seq<char>)> {
    let path = decorator_route_path(d);
    match shorthand_method(d) {
        Option::Some(m) => seq![(m, path)],
        Option::None => if !contains_seq(d, ".route"@) {
            Seq::empty()
        } else if listed_methods(d).len() == 0 {
            seq![(HttpMethod::Get, path)]
        } else {
            listed_methods(d).map_values(|m: HttpMethod| (m, path))
        },
    }
}

/// The (method, path) pairs that a list of decorators declares, in order.
pub open spec fn decorators_routes(ds: Seq<Seq<char>>) -> Seq<(HttpMethod, Seq<char>)>
    decreases ds.len(),
{
    if ds.len() == 0 {
        Seq::empty()
    } else {
        decorators_routes(ds.drop_last()) + decorator_routes(ds.last())
    }
}

/// The routes of the first `n` statements: method, path, and the index of the statement that
/// defines the handler.
pub open spec fn body_routes(body: Seq<Statement>, n: int) -> Seq<(HttpMethod, Seq<char>, int)>
    decreases n,
{
    if n <= 0 {
        Seq::empty()
    } else {
        let before = body_routes(body, n - 1);
        match body[n - 1] {
            Statement::FunctionDef(f) => before + decorators_routes(views(f.decorators@)).map_values(
                |p: (HttpMethod, Seq<char>)| (p.0, p.1, n - 1),
            ),
            _ => before,
        }
    }
}

/// Every decorator of every function in the module has a readable method list.
pub open spec fn module_readable(m: Module) -> bool {
    forall|i: int, j: int|
        0 <= i < m.body@.len() && m.body@[i] is FunctionDef && 0 <= j
            < m.body@[i]->FunctionDef_0.decorators@.len() ==> methods_readable(
            #[trigger] m.body@[i]->FunctionDef_0.decorators@[j]@,
        )
}

/// `routes` are the routes that `expected` lists, with handlers taken from `body`.
pub open spec fn routes_match(
    routes: Seq<RouteInfo>,
    expected: Seq<(HttpMethod, Seq<char>, int)>,
    body: Seq<Statement>,
) -> bool {
    &&& routes.len() == expected.len()
    &&& forall|i: int| 0 <= i < routes.len() ==> {
        let r = #[trigger] routes[i];
        let (m, p, k) = expected[i];
        &&& r.method == m
        &&& r.path@ == p
        &&& 0 <= k < body.len()
        &&& body[k] is FunctionDef
        &&& r.handler.same(body[k]->FunctionDef_0)
        &&& r.response_model is None
        &&& params_describe(r.params@, r.handler, r.path@)
    }
}

/// `routes` are routes for `func` with the methods and paths of `expected`, in order.
pub open spec fn routes_for(
    routes: Seq<RouteInfo>,
    expected: Seq<(HttpMethod, Seq<char>)>,
    func: Function,
) -> bool {
    &&& routes.len() == expected.len()
    &&& forall|i: int| 0 <= i < routes.len() ==> {
        let r = #[trigger] routes[i];
        &&& r.method == expected[i].0
        &&& r.path@ == expected[i].1
        &&& r.handler.same(func)
        &&& r.response_model is None
        &&& params_describe(r.params@, r.handler, r.path@)
    }
}

/// A function has a route decorator: one that mentions `.route`, `.get`, `.post`, `.put`,
/// `.delete` or `.patch`.
pub open spec fn is_route_decorator(d: Seq<char>) -> bool {
    contains_seq(d, ".route"@) || contains_seq(d, ".get"@) || contains_seq(d, ".post"@)
        || contains_seq(d, ".put"@) || contains_seq(d, ".delete"@) || contains_seq(d, ".patch"@)
}

/// Some function of the module has a route decorator.
pub open spec fn flask_detected(m: Module) -> bool {
    exists|i: int, j: int|
        0 <= i < m.body@.len() && m.body@[i] is FunctionDef && 0 <= j
            < m.body@[i]->FunctionDef_0.decorators@.len() && is_route_decorator(
            #[trigger] m.body@[i]->FunctionDef_0.decorators@[j]@,
        )
}

/// The shorthand attributes that name a method, in the order they are looked for.
pub open spec fn shorthand_attributes() -> Seq<Seq<char>> {
    seq!["get"@, "post"@, "put"@, "delete"@, "patch"@]
}

/// A decorator without `.route` names, as its shorthand method, the first of the attributes
/// `.get`, `.post`, `.put`, `.delete`, `.patch` that it contains, upper-cased.
pub proof fn law_flask_shorthand_is_attribute(d: Seq<char>, i: int)
    requires
        !contains_seq(d, ".route"@),
        0 <= i < shorthand_attributes().len(),
        contains_seq(d, seq!['.'] + shorthand_attributes()[i]),
        forall|j: int| 0 <= j < i ==> !contains_seq(d, seq!['.'] + #[trigger] shorthand_attributes()[j]),
    ensures
        shorthand_method(d) matches Option::Some(m) && method_name(m) == shorthand_attributes()[i].map_values(
            |c: char| ascii_upper(c),
        ),
{
    reveal_strlit("get");
    reveal_strlit("post");
    reveal_strlit("put");
    reveal_strlit("delete");
    reveal_strlit("patch");
    reveal_strlit(".get");
    reveal_strlit(".post");
    reveal_strlit(".put");
    reveal_strlit(".delete");
    reveal_strlit(".patch");
    reveal_strlit("GET");
    reveal_strlit("POST");
    reveal_strlit("PUT");
    reveal_strlit("DELETE");
    reveal_strlit("PATCH");
    let a = shorthand_attributes();
    assert(seq!['.'] + a[0] =~= ".get"@);
    assert(seq!['.'] + a[1] =~= ".post"@);
    assert(seq!['.'] + a[2] =~= ".put"@);
    assert(seq!['.'] + a[3] =~= ".delete"@);
    assert(seq!['.'] + a[4] =~= ".patch"@);
    assert(a[0].map_values(|c: char| ascii_upper(c)) =~= "GET"@);
    assert(a[1].map_values(|c: char| ascii_upper(c)) =~= "POST"@);
    assert(a[2].map_values(|c: char| ascii_upper(c)) =~= "PUT"@);
    assert(a[3].map_values(|c: char| ascii_upper(c)) =~= "DELETE"@);
    assert(a[4].map_values(|c: char| ascii_upper(c)) =~= "PATCH"@);
    if i > 0 {
        assert(!contains_seq(d, seq!['.'] + a[0]));
    }
    if i > 1 {
        assert(!contains_seq(d, seq!['.'] + a[1]));
    }
    if i > 2 {
        assert(!contains_seq(d, seq!['.'] + a[2]));
    }
    if i > 3 {
        assert(!contains_seq(d, seq!['.'] + a[3]));
    }
}

/// A decorator that declares a route is a route decorator.
proof fn lemma_routes_imply_route_decorator(d: Seq<char>)
    requires
        decorator_routes(d).len() > 0,
    ensures
        is_route_decorator(d),
{
}

/// A list of decorators that declares a route has a decorator that declares one.
proof fn lemma_decorators_routes_witness(ds: Seq<Seq<char>>) -> (j: int)
    requires
        decorators_routes(ds).len() > 0,
    ensures
        0 <= j < ds.len(),
        decorator_routes(ds[j]).len() > 0,
    decreases ds.len(),
{
    if decorator_routes(ds.last()).len() > 0 {
        ds.len() - 1
    } else {
        assert(decorators_routes(ds.drop_last()).len() > 0);
        let j = lemma_decorators_routes_witness(ds.drop_last());
        assert(ds.drop_last()[j] == ds[j]);
        j
    }
}

/// A module body that declares a route has a function whose decorators declare one.
proof fn lemma_body_routes_witness(body: Seq<Statement>, n: int) -> (i: int)
    requires
        0 <= n <= body.len(),
        body_routes(body, n).len() > 0,
    ensures
        0 <= i < n,
        body[i] is FunctionDef,
        decorators_routes(views(body[i]->FunctionDef_0.decorators@)).len() > 0,
    decreases n,
{
    let before = body_routes(body, n - 1);
    match body[n - 1] {
        Statement::FunctionDef(f) => {
            if decorators_routes(views(f.decorators@)).len() > 0 {
                n - 1
            } else {
                assert(before.len() > 0);
                lemma_body_routes_witness(body, n - 1)
            }
        },
        _ => lemma_body_routes_witness(body, n - 1),
    }
}

/// Whenever Flask route extraction finds a route in a module, the Flask adapter detects the
/// module.
pub proof fn law_flask_routes_imply_detection(m: Module)
    requires
        body_routes(m.body@, m.body@.len() as int).len() > 0,
    ensures
        flask_detected(m),
{
    let i = lemma_body_routes_witness(m.body@, m.body@.len() as int);
    let f = m.body@[i]->FunctionDef_0;
    let ds = views(f.decorators@);
    let j = lemma_decorators_routes_witness(ds);
    assert(ds[j] == f.decorators@[j]@);
    lemma_routes_imply_route_decorator(ds[j]);
    assert(is_route_decorator(m.body@[i]->FunctionDef_0.decorators@[j]@));
}

impl FlaskAdapter {
    /// The shorthand method of a decorator such as `app.get("/")`; `None` for `.route`.
    fn parse_shorthand_method(decorator: &str) -> (r: Option<HttpMethod>)
        ensures
            r == shorthand_method(decorator@),
    {
        let d = chars_of(decorator);
        if contains(d.as_slice(), ".route") {
            return None;
        }
        if contains(d.as_slice(), ".get") {
            Some(HttpMethod::Get)
        } else if contains(d.as_slice(), ".post") {
            Some(HttpMethod::Post)
        } else if contains(d.as_slice(), ".put") {
            Some(HttpMethod::Put)
        } else if contains(d.as_slice(), ".delete") {
            Some(HttpMethod::Delete)
        } else if contains(d.as_slice(), ".patch") {
            Some(HttpMethod::Patch)
        } else {
            None
        }
    }

    /// The first quoted string of a decorator.
    fn extract_path(decorator: &str) -> (r: Option<String>)
        ensures
            match r {
                Option::Some(p) => quoted_path(decorator@) == Option::Some(p@),
                Option::None => quoted_path(decorator@) is None,
            },
    {
        extract_quoted(decorator)
    }
}

/// The methods named by the comma-separated list `inner`.
fn methods_from_list(inner: &[char]) -> (r: Vec<HttpMethod>)
    ensures
        r@ == methods_of_pieces(split_commas(inner@)),
{
    let mut out: Vec<HttpMethod> = Vec::new();
    let ghost mut done: Seq<Seq<char>> = Seq::empty();
    let mut pos: usize = 0;
    let mut finished = false;
    assert(inner@.skip(0) == inner@);
    while !finished
        invariant
            pos <= inner@.len(),
            !finished ==> done + split_commas(inner@.skip(pos as int)) == split_commas(inner@),
            finished ==> done == split_commas(inner@),
            out@ == methods_of_pieces(done),
        decreases inner@.len() - pos + (if finished { 0int } else { 1int }),
    {
        let ghost rest = inner@.skip(pos as int);
        proof { lemma_first_index(rest, ','); }
        let (end, next) = match find_char_from(inner, pos, ',') {
            Some(k) => {
                assert(k < inner.len());
                (k, Some(k + 1))
            },
            None => (inner.len(), None),
        };
        let piece = sub_chars(inner, pos, end);
        let t = trim_chars(piece.as_slice());
        let t1 = trim_char_chars(t.as_slice(), '"');
        let t2 = trim_char_chars(t1.as_slice(), '\'');
        let name = string_from(t2.as_slice());
        let m = HttpMethod::from_str_loose(name.as_str());
        proof {
            let new_done = done.push(piece@);
            assert(new_done.drop_last() == done);
            assert(new_done.last() == piece@);
            match next {
                Option::Some(k1) => {
                    assert(rest.take(end - pos) == piece@);
                    assert(rest.skip(end - pos + 1) == inner@.skip(k1 as int));
                    assert(split_commas(rest) == seq![piece@] + split_commas(inner@.skip(k1 as int)));
                    assert(new_done + split_commas(inner@.skip(k1 as int)) == done + split_commas(rest));
                },
                Option::None => {
                    assert(rest == piece@);
                    assert(split_commas(rest) == seq![piece@]);
                    assert(new_done == done + split_commas(rest));
                },
            }
            done = new_done;
        }
        match m {
            Some(method) => out.push(method),
            None => {},
        }
        match next {
            Some(k1) => {
                pos = k1;
            },
            None => {
                pos = inner.len();
                finished = true;
            },
        }
    }
    out
}

impl FlaskAdapter {
    /// The methods of the `methods=[...]` argument of a decorator.
    fn extract_methods(decorator: &str) -> (r: Vec<HttpMethod>)
        requires
            brackets_ordered(decorator@),
        ensures
            r@ == listed_methods(decorator@),
    {
        let d = chars_of(decorator);
        let key = chars_of("methods");
        let m = match find_seq(d.as_slice(), key.as_slice()) {
            Some(m) => m,
            None => {
                return Vec::new();
            },
        };
        proof {
            lemma_first_occurrence_from(d@, key@, 0);
        }
        let b = match find_char_from(d.as_slice(), m, '[') {
            Some(b) => b,
            None => {
                return Vec::new();
            },
        };
        let e = match find_char_from(d.as_slice(), m, ']') {
            Some(e) => e,
            None => {
                return Vec::new();
            },
        };
        let inner = sub_chars(d.as_slice(), b + 1, e);
        assert(d@.skip(m as int).subrange(b - m + 1, e - m as int) == inner@);
        methods_from_list(inner.as_slice())
    }
}

/// Whether the method list of a decorator can be read where it is read: unless the decorator
/// is no `.route` decorator, when `methods` is followed by both a `[` and a `]`, the first `]`
/// comes after the first `[`.
pub fn methods_list_readable(decorator: &str) -> (r: bool)
    ensures
        r == methods_readable(decorator@),
{
    let d = chars_of(decorator);
    if !contains(d.as_slice(), ".route") {
        return true;
    }
    let key = chars_of("methods");
    let m = match find_seq(d.as_slice(), key.as_slice()) {
        Some(m) => m,
        None => {
            return true;
        },
    };
    proof {
        lemma_first_occurrence_from(d@, key@, 0);
    }
    let b = match find_char_from(d.as_slice(), m, '[') {
        Some(b) => b,
        None => {
            return true;
        },
    };
    let e = match find_char_from(d.as_slice(), m, ']') {
        Some(e) => e,
        None => {
            return true;
        },
    };
    b < e
}

impl FlaskAdapter {
    /// Whether every route decorator of the module has a readable method list, so that
    /// route extraction can run on it.
    pub fn can_read(module: &Module) -> (r: bool)
        ensures
            r == module_readable(*module),
    {
        let mut i: usize = 0;
        while i < module.body.len()
            invariant
                i <= module.body@.len(),
                forall|a: int, j: int|
                    0 <= a < i && module.body@[a] is FunctionDef && 0 <= j
                        < module.body@[a]->FunctionDef_0.decorators@.len() ==> methods_readable(
                        #[trigger] module.body@[a]->FunctionDef_0.decorators@[j]@,
                    ),
            decreases module.body@.len() - i,
        {
            if let Statement::FunctionDef(func) = &module.body[i] {
                let mut j: usize = 0;
                while j < func.decorators.len()
                    invariant
                        i < module.body@.len(),
                        module.body@[i as int] == Statement::FunctionDef(*func),
                        j <= func.decorators@.len(),
                        forall|a: int, k: int|
                            0 <= a < i && module.body@[a] is FunctionDef && 0 <= k
                                < module.body@[a]->FunctionDef_0.decorators@.len() ==> methods_readable(
                                #[trigger] module.body@[a]->FunctionDef_0.decorators@[k]@,
                            ),
                        forall|k: int| 0 <= k < j ==> methods_readable(#[trigger] func.decorators@[k]@),
                    decreases func.decorators@.len() - j,
                {
                    if !methods_list_readable(func.decorators[j].as_str()) {
                        assert(module.body@[i as int]->FunctionDef_0.decorators@[j as int] == func.decorators@[j as int]);
                        assert(!methods_readable(module.body@[i as int]->FunctionDef_0.decorators@[j as int]@));
                        return false;
                    }
                    j = j + 1;
                }
            }
            i = i + 1;
        }
        true
    }

    /// The normalized route path of a decorator.
    fn route_path(decorator: &str) -> (r: String)
        ensures
            r@ == decorator_route_path(decorator@),
    {
        let flask_path = match Self::extract_path(decorator) {
            Some(p) => p,
            None => "/".to_string(),
        };
        let (normalized, _) = normalize_flask_path(flask_path.as_str());
        normalized
    }

    /// The routes that one decorator declares for `func`.
    fn parse_decorator(decorator: &str, func: &Function) -> (r: Result<Vec<RouteInfo>, FlaskError>)
        requires
            methods_readable(decorator@),
        ensures
            r matches Ok(routes) && routes_for(routes@, decorator_routes(decorator@), *func),
    {
        let path = Self::route_path(decorator);
        if let Some(method) = Self::parse_shorthand_method(decorator) {
            let route = RouteInfo::new(method, path.as_str(), func.duplicate());
            let routes = vec![route];
            assert(routes@[0] == route);
            return Ok(routes);
        }
        let d = chars_of(decorator);
        if !contains(d.as_slice(), ".route") {
            return Ok(Vec::new());
        }
        let methods = Self::extract_methods(decorator);
        if methods.len() == 0 {
            let route = RouteInfo::new(HttpMethod::Get, path.as_str(), func.duplicate());
            let routes = vec![route];
            assert(routes@[0] == route);
            return Ok(routes);
        }
        let ghost expected = decorator_routes(decorator@);
        let mut routes: Vec<RouteInfo> = Vec::new();
        let mut i: usize = 0;
        while i < methods.len()
            invariant
                i <= methods@.len(),
                methods@ == listed_methods(decorator@),
                methods@.len() > 0,
                path@ == decorator_route_path(decorator@),
                shorthand_method(decorator@) is None,
                contains_seq(decorator@, ".route"@),
                expected == decorator_routes(decorator@),
                routes_for(routes@, expected.take(i as int), *func),
            decreases methods@.len() - i,
        {
            let route = RouteInfo::new(methods[i], path.as_str(), func.duplicate());
            routes.push(route);
            i = i + 1;
        }
        assert(expected.take(methods@.len() as int) == expected);
        Ok(routes)
    }

    /// The routes that all decorators of `func` declare, in order.
    fn try_extract_routes(func: &Function) -> (r: Result<Vec<RouteInfo>, FlaskError>)
        requires
            forall|j: int| 0 <= j < func.decorators@.len() ==> methods_readable(#[trigger] func.decorators@[j]@),
        ensures
            r matches Ok(routes) && routes_for(routes@, decorators_routes(views(func.decorators@)), *func),
    {
        let mut routes: Vec<RouteInfo> = Vec::new();
        let mut i: usize = 0;
        while i < func.decorators.len()
            invariant
                i <= func.decorators@.len(),
                forall|j: int| 0 <= j < func.decorators@.len() ==> methods_readable(#[trigger] func.decorators@[j]@),
                routes_for(routes@, decorators_routes(views(func.decorators@).take(i as int)), *func),
            decreases func.decorators@.len() - i,
        {
            let mut extracted = match Self::parse_decorator(func.decorators[i].as_str(), func) {
                Ok(v) => v,
                Err(e) => {
                    return Err(e);
                },
            };
            let ghost before = routes@;
            routes.append(&mut extracted);
            proof {
                let ds = views(func.decorators@);
                assert(ds.take(i + 1).drop_last() == ds.take(i as int));
                assert(ds.take(i + 1).last() == func.decorators@[i as int]@);
            }
            i = i + 1;
        }
        assert(views(func.decorators@).take(func.decorators@.len() as int) == views(func.decorators@));
        Ok(routes)
    }

    /// Scans a module for Flask route decorators and extracts the routes, in the order of the
    /// functions and of their decorators. Both `@app.route("/path", methods=[...])` and the
    /// shorthand `@app.get("/path")` are recognized.
    pub fn extract_routes_static(module: &Module) -> (r: Result<Vec<RouteInfo>, FlaskError>)
        requires
            module_readable(*module),
        ensures
            r matches Ok(routes) && routes_match(
                routes@,
                body_routes(module.body@, module.body@.len() as int),
                module.body@,
            ),
    {
        let mut routes: Vec<RouteInfo> = Vec::new();
        let mut i: usize = 0;
        while i < module.body.len()
            invariant
                i <= module.body@.len(),
                module_readable(*module),
                routes_match(routes@, body_routes(module.body@, i as int), module.body@),
            decreases module.body@.len() - i,
        {
            if let Statement::FunctionDef(func) = &module.body[i] {
                let mut extracted = match Self::try_extract_routes(func) {
                    Ok(v) => v,
                    Err(e) => {
                        return Err(e);
                    },
                };
                let ghost before = routes@;
                let ghost ex = extracted@;
                let ghost k = i as int;
                routes.append(&mut extracted);
                proof {
                    let added = decorators_routes(views(func.decorators@)).map_values(
                        |p: (HttpMethod, Seq<char>)| (p.0, p.1, k),
                    );
                    assert(body_routes(module.body@, i + 1) == body_routes(module.body@, i as int) + added);
                    assert forall|j: int| 0 <= j < routes@.len() implies {
                        let r = #[trigger] routes@[j];
                        let (m, p, kk) = body_routes(module.body@, i + 1)[j];
                        &&& r.method == m
                        &&& r.path@ == p
                        &&& 0 <= kk < module.body@.len()
                        &&& module.body@[kk] is FunctionDef
                        &&& r.handler.same(module.body@[kk]->FunctionDef_0)
                        &&& r.response_model is None
                        &&& params_describe(r.params@, r.handler, r.path@)
                    } by {
                        if j >= before.len() {
                            assert(routes@[j] == ex[j - before.len()]);
                        } else {
                            assert(routes@[j] == before[j]);
                        }
                    }
                }
            }
            i = i + 1;
        }
        Ok(routes)
    }
}

/// Whether a decorator is a route decorator.
fn route_decorator(d: &str) -> (r: bool)
    ensures
        r == is_route_decorator(d@),
{
    let v = chars_of(d);
    let s = v.as_slice();
    contains(s, ".route") || contains(s, ".get") || contains(s, ".post") || contains(s, ".put")
        || contains(s, ".delete") || contains(s, ".patch")
}

impl FrameworkAdapter for FlaskAdapter {
    open spec fn detects(&self, module: Module) -> bool {
        flask_detected(module)
    }

    open spec fn can_extract(&self, module: Module) -> bool {
        module_readable(module)
    }

    open spec fn extracts(&self, module: Module, r: Result<Vec<RouteInfo>, AdapterError>) -> bool {
        r matches Ok(routes) && routes_match(
            routes@,
            body_routes(module.body@, module.body@.len() as int),
            module.body@,
        )
    }

    open spec fn framework_name(&self) -> Seq<char> {
        "Flask"@
    }

    fn name(&self) -> (r: &'static str) {
        proof {
            reveal_strlit("Flask");
        }
        "Flask"
    }

    fn detect(&self, module: &Module) -> (r: bool) {
        let mut i: usize = 0;
        while i < module.body.len()
            invariant
                i <= module.body@.len(),
                forall|k: int, j: int|
                    0 <= k < i && module.body@[k] is FunctionDef && 0 <= j
                        < module.body@[k]->FunctionDef_0.decorators@.len() ==> !is_route_decorator(
                        #[trigger] module.body@[k]->FunctionDef_0.decorators@[j]@,
                    ),
            decreases module.body@.len() - i,
        {
            if let Statement::FunctionDef(func) = &module.body[i] {
                let mut j: usize = 0;
                while j < func.decorators.len()
                    invariant
                        j <= func.decorators@.len(),
                        i < module.body@.len(),
                        module.body@[i as int] == Statement::FunctionDef(*func),
                        forall|jj: int| 0 <= jj < j ==> !is_route_decorator(#[trigger] func.decorators@[jj]@),
                    decreases func.decorators@.len() - j,
                {
                    if route_decorator(func.decorators[j].as_str()) {
                        assert(is_route_decorator(
                            module.body@[i as int]->FunctionDef_0.decorators@[j as int]@,
                        ));
                        return true;
                    }
                    j = j + 1;
                }
            }
            i = i + 1;
        }
        false
    }

    fn extract_routes(&self, module: &Module) -> (r: Result<Vec<RouteInfo>, AdapterError>) {
        match FlaskAdapter::extract_routes_static(module) {
            Ok(routes) => Ok(routes),
            Err(_) => {
                proof { assert(false); }
                Ok(Vec::new())
            },
        }
    }
}

} // verus!
