//! The decisions of `serve`: which module to load, and which routes are served natively.

use vstd::prelude::*;

use crate::adapter::route::{contains_name, method_name, views, HttpMethod, ParamSource, RouteInfo, RouteParam};
use crate::hir::TypeAnnotation;
use crate::text::{chars_of, ends_with, find_char, first_index, str_ends_with, string_of_range};

verus! {

broadcast use vstd::string::group_string_axioms;

/// The upper-case name of an HTTP method.
pub fn method_str(method: &HttpMethod) -> (r: &'static str)
    ensures
        r@ == method_name(*method),
{
    proof {
        reveal_strlit("GET");
        reveal_strlit("POST");
        reveal_strlit("PUT");
        reveal_strlit("DELETE");
        reveal_strlit("PATCH");
    }
    match method {
        HttpMethod::Get => "GET",
        HttpMethod::Post => "POST",
        HttpMethod::Put => "PUT",
        HttpMethod::Delete => "DELETE",
        HttpMethod::Patch => "PATCH",
    }
}

/// The message for a target without a colon.
pub open spec fn target_error(target: Seq<char>) -> Seq<char> {
    "expected format `module:app` (e.g., `main:app`), got `"@ + target + "`"@
}

/// What `parse_target` answers: the file before the first colon, with `.py` added unless it
/// ends so, and the application variable after it.
pub open spec fn target_parts(target: Seq<char>) -> Result<(Seq<char>, Seq<char>), Seq<char>> {
    match first_index(target, ':') {
        Option::Some(i) => {
            let module = target.take(i);
            Ok((if ends_with(module, ".py"@) { module } else { module + ".py"@ }, target.skip(i + 1)))
        },
        Option::None => Err(target_error(target)),
    }
}

/// A target written as `file:app`, with no colon in the file, reads back as the file (with
/// `.py` added unless it ends so) and the application variable.
pub proof fn law_parse_target_round_trip(file: Seq<char>, app: Seq<char>)
    requires
        !file.contains(':'),
    ensures
        target_parts(file + seq![':'] + app) == Ok::<(Seq<char>, Seq<char>), Seq<char>>(
            (if ends_with(file, ".py"@) { file } else { file + ".py"@ }, app),
        ),
{
    let t = file + seq![':'] + app;
    assert forall|j: int| 0 <= j < file.len() implies t[j] != ':' by {
        assert(t[j] == file[j]);
        assert(file.contains(file[j]));
    }
    assert(t[file.len() as int] == ':');
    crate::text::lemma_first_index_at(t, ':', file.len() as int);
    assert(t.take(file.len() as int) =~= file);
    assert(t.skip(file.len() as int + 1) =~= app);
}

/// Parses `module:app` or `module.py:app` into the module file and the application variable.
pub fn parse_target(target: &str) -> (r: Result<(String, String), String>)
    ensures
        match target_parts(target@) {
            Ok((m, a)) => r matches Ok((rm, ra)) && rm@ == m && ra@ == a,
            Err(e) => r matches Err(re) && re@ == e,
        },
{
    let v = chars_of(target);
    proof { crate::text::lemma_first_index(v@, ':'); }
    match find_char(v.as_slice(), ':') {
        Some(i) => {
            let mut file_path = string_of_range(v.as_slice(), 0, i);
            let app_var = string_of_range(v.as_slice(), i + 1, v.len());
            assert(v@.subrange(0, i as int) =~= target@.take(i as int));
            assert(v@.subrange(i + 1, v@.len() as int) =~= target@.skip(i + 1));
            proof { reveal_strlit(".py"); }
            if !str_ends_with(file_path.as_str(), ".py") {
                file_path.append(".py");
            }
            Ok((file_path, app_var))
        },
        None => {
            let mut m = "expected format `module:app` (e.g., `main:app`), got `".to_string();
            m.append(target);
            m.append("`");
            Err(m)
        },
    }
}

/// How a path parameter is converted before a native handler is called.
#[derive(Debug, Clone, Copy, PartialEq, Eq, Structural)]
pub enum ParamType {
    Int,
    Str,
}

/// A route served by a compiled handler.
#[derive(Debug, PartialEq)]
pub struct NativeRoute {
    pub method: String,
    pub path: String,
    pub handler_name: String,
    /// The handler returns JSON through output parameters.
    pub is_json: bool,
    /// The names of the path parameters, in order.
    pub path_params: Vec<String>,
    /// How each path parameter is converted.
    pub param_types: Vec<ParamType>,
}

/// The routes of an application split between native handlers and the ASGI application.
#[derive(Debug)]
pub struct NativePlan {
    pub routes: Vec<NativeRoute>,
    pub native_count: usize,
    pub asgi_count: usize,
}

/// The conversion of a path parameter of type `ty`: integers for `int`, text otherwise.
pub open spec fn param_type_of(ty: TypeAnnotation) -> ParamType {
    if ty is Int {
        ParamType::Int
    } else {
        ParamType::Str
    }
}

/// The path parameters among `ps`, in order.
pub open spec fn path_params_of(ps: Seq<RouteParam>) -> Seq<RouteParam>
    decreases ps.len(),
{
    if ps.len() == 0 {
        Seq::empty()
    } else if ps.last().source == ParamSource::Path {
        path_params_of(ps.drop_last()).push(ps.last())
    } else {
        path_params_of(ps.drop_last())
    }
}

/// `n` serves the route `r` natively.
pub open spec fn serves(n: NativeRoute, r: RouteInfo, json: Seq<Seq<char>>) -> bool {
    let pp = path_params_of(r.params@);
    &&& n.method@ == method_name(r.method)
    &&& n.path@ == r.path@
    &&& n.handler_name@ == r.handler.name@
    &&& n.is_json == json.contains(r.handler.name@)
    &&& views(n.path_params@) == pp.map_values(|p: RouteParam| p.name@)
    &&& n.param_types@ == pp.map_values(|p: RouteParam| param_type_of(p.ty))
}

/// The routes whose handler was compiled, in order.
pub open spec fn compiled_routes(routes: Seq<RouteInfo>, compiled: Seq<Seq<char>>) -> Seq<RouteInfo>
    decreases routes.len(),
{
    if routes.len() == 0 {
        Seq::empty()
    } else if compiled.contains(routes.last().handler.name@) {
        compiled_routes(routes.drop_last(), compiled).push(routes.last())
    } else {
        compiled_routes(routes.drop_last(), compiled)
    }
}

/// The native route of `r`.
fn native_route(r: &RouteInfo, json_functions: &Vec<String>) -> (n: NativeRoute)
    ensures
        serves(n, *r, views(json_functions@)),
{
    let mut path_params: Vec<String> = Vec::new();
    let mut param_types: Vec<ParamType> = Vec::new();
    let mut i: usize = 0;
    while i < r.params.len()
        invariant
            i <= r.params@.len(),
            views(path_params@) == path_params_of(r.params@.take(i as int)).map_values(|p: RouteParam| p.name@),
            param_types@ == path_params_of(r.params@.take(i as int)).map_values(|p: RouteParam| param_type_of(p.ty)),
        decreases r.params@.len() - i,
    {
        let ghost prefix = r.params@.take(i + 1);
        assert(prefix.drop_last() =~= r.params@.take(i as int));
        assert(prefix.last() == r.params@[i as int]);
        let p = &r.params[i];
        if p.source == ParamSource::Path {
            let ghost names0 = views(path_params@);
            let ghost types0 = param_types@;
            path_params.push(p.name.clone());
            param_types.push(if matches!(p.ty, TypeAnnotation::Int) { ParamType::Int } else { ParamType::Str });
            assert(views(path_params@) =~= names0.push(p.name@));
            assert(path_params_of(prefix) == path_params_of(r.params@.take(i as int)).push(*p));
            assert(views(path_params@) =~= path_params_of(prefix).map_values(|q: RouteParam| q.name@));
            assert(param_types@ =~= path_params_of(prefix).map_values(|q: RouteParam| param_type_of(q.ty)));
        }
        i = i + 1;
    }
    assert(r.params@.take(r.params@.len() as int) =~= r.params@);
    NativeRoute {
        method: method_str(&r.method).to_string(),
        path: r.path.clone(),
        handler_name: r.handler.name.clone(),
        is_json: contains_name(json_functions, r.handler.name.as_str()),
        path_params,
        param_types,
    }
}

/// Splits the routes between native handlers, for those whose handler was compiled, and the
/// ASGI application, for the others.
pub fn plan_native_routes(routes: &Vec<RouteInfo>, compiled: &Vec<String>, json_functions: &Vec<String>) -> (p: NativePlan)
    ensures
        p.routes@.len() == compiled_routes(routes@, views(compiled@)).len(),
        forall|k: int|
            0 <= k < p.routes@.len() ==> serves(
                #[trigger] p.routes@[k],
                compiled_routes(routes@, views(compiled@))[k],
                views(json_functions@),
            ),
        p.native_count == p.routes@.len(),
        p.native_count + p.asgi_count == routes@.len(),
{
    let ghost cs = views(compiled@);
    let mut out: Vec<NativeRoute> = Vec::new();
    let mut asgi_count: usize = 0;
    let mut i: usize = 0;
    while i < routes.len()
        invariant
            i <= routes@.len(),
            cs == views(compiled@),
            out@.len() == compiled_routes(routes@.take(i as int), cs).len(),
            out@.len() + asgi_count == i,
            forall|k: int|
                0 <= k < out@.len() ==> serves(
                    #[trigger] out@[k],
                    compiled_routes(routes@.take(i as int), cs)[k],
                    views(json_functions@),
                ),
        decreases routes@.len() - i,
    {
        let ghost prefix = routes@.take(i + 1);
        assert(prefix.drop_last() =~= routes@.take(i as int));
        assert(prefix.last() == routes@[i as int]);
        if contains_name(compiled, routes[i].handler.name.as_str()) {
            let n = native_route(&routes[i], json_functions);
            out.push(n);
            assert(compiled_routes(prefix, cs) == compiled_routes(routes@.take(i as int), cs).push(routes@[i as int]));
        } else {
            asgi_count = asgi_count + 1;
        }
        i = i + 1;
    }
    assert(routes@.take(routes@.len() as int) =~= routes@);
    let native_count = out.len();
    NativePlan { routes: out, native_count, asgi_count }
}

} // verus!
