use vstd::prelude::*;

use crate::hir::{Function, TypeAnnotation};
use crate::text::{
    chars_of, find_char_from, first_index, split_at_first, str_equal, string_of_range, trim_chars,
    trimmed,
};

verus! {

broadcast use vstd::string::group_string_axioms;

/// HTTP methods that framework routes use.
#[derive(Debug, Clone, Copy, PartialEq, Eq, Structural)]
pub enum HttpMethod {
    Get,
    Post,
    Put,
    Delete,
    Patch,
}

/// The result of `str::to_uppercase`, which maps each character by Unicode's
/// upper-case tables.
pub uninterp spec fn uppercase(s: Seq<char>) -> Seq<char>;

/// All characters of `s` are ASCII.
pub open spec fn is_ascii(s: Seq<char>) -> bool {
    forall|i: int| 0 <= i < s.len() ==> (s[i] as u32) < 128
}

/// The ASCII upper case of `c`: `a` to `z` become `A` to `Z`, other characters stay.
pub open spec fn ascii_upper(c: char) -> char {
    if 'a' <= c <= 'z' {
        ((c as u32) - 32) as char
    } else {
        c
    }
}

/// Calls `str::to_uppercase`; its result is `uppercase` of the argument, and on ASCII text it
/// maps each character to its ASCII upper case.
#[verifier::external_body]
fn to_uppercase(s: &str) -> (r: String)
    ensures
        r@ == uppercase(s@),
        is_ascii(s@) ==> r@ == s@.map_values(|c: char| ascii_upper(c)),
{
    s.to_uppercase()
}

/// The upper-case name of an HTTP method.
pub open spec fn method_name(m: HttpMethod) -> Seq<char> {
    match m {
        HttpMethod::Get => "GET"@,
        HttpMethod::Post => "POST"@,
        HttpMethod::Put => "PUT"@,
        HttpMethod::Delete => "DELETE"@,
        HttpMethod::Patch => "PATCH"@,
    }
}

/// Method names are recognized in any ASCII case: every spelling of a method's name that
/// differs from it only in the case of its letters is ASCII and reads, upper-cased, as the
/// method, which is what `from_str_loose` answers for ASCII text.
pub proof fn law_method_names_ignore_case(m: HttpMethod, s: Seq<char>)
    requires
        s.len() == method_name(m).len(),
        forall|i: int| 0 <= i < s.len() ==> ascii_upper(#[trigger] s[i]) == method_name(m)[i],
    ensures
        trimmed(s) == s,
        is_ascii(s),
        method_named(s.map_values(|c: char| ascii_upper(c))) == Option::Some(m),
{
    reveal_strlit("GET");
    reveal_strlit("POST");
    reveal_strlit("PUT");
    reveal_strlit("DELETE");
    reveal_strlit("PATCH");
    assert forall|i: int| 0 <= i < s.len() implies ('a' <= #[trigger] s[i] <= 'z' || 'A' <= s[i] <= 'Z') by {
        assert('A' <= method_name(m)[i] <= 'Z');
    }
    assert(s.len() > 0);
    assert(!crate::text::is_white_space(s[0]));
    assert(!crate::text::is_white_space(s.last()));
    assert(crate::text::leading_ws(s) == 0);
    assert(crate::text::trailing_ws(s) == 0);
    assert(s.skip(0) =~= s);
    assert(s.take(s.len() as int) =~= s);
    assert(s.map_values(|c: char| ascii_upper(c)) =~= method_name(m));
}

/// The method that an upper-case method name stands for.
pub open spec fn method_named(name: Seq<char>) -> Option<HttpMethod> {
    if name == "GET"@ {
        Option::Some(HttpMethod::Get)
    } else if name == "POST"@ {
        Option::Some(HttpMethod::Post)
    } else if name == "PUT"@ {
        Option::Some(HttpMethod::Put)
    } else if name == "DELETE"@ {
        Option::Some(HttpMethod::Delete)
    } else if name == "PATCH"@ {
        Option::Some(HttpMethod::Patch)
    } else {
        Option::None
    }
}

/// What `from_str_loose` answers for `s`: the method named by `s` trimmed and upper-cased.
pub open spec fn loose_method(s: Seq<char>) -> Option<HttpMethod> {
    method_named(uppercase(trimmed(s)))
}

impl HttpMethod {
    /// The method whose upper-case name is exactly `name`.
    pub fn from_canonical(name: &str) -> (r: Option<HttpMethod>)
        ensures
            r == method_named(name@),
    {
        proof {
            reveal_strlit("GET");
            reveal_strlit("POST");
            reveal_strlit("PUT");
            reveal_strlit("DELETE");
            reveal_strlit("PATCH");
        }
        if str_equal(name, "GET") {
            Some(HttpMethod::Get)
        } else if str_equal(name, "POST") {
            Some(HttpMethod::Post)
        } else if str_equal(name, "PUT") {
            Some(HttpMethod::Put)
        } else if str_equal(name, "DELETE") {
            Some(HttpMethod::Delete)
        } else if str_equal(name, "PATCH") {
            Some(HttpMethod::Patch)
        } else {
            None
        }
    }

    /// Parses an HTTP method name, ignoring case and surrounding white space.
    pub fn from_str_loose(s: &str) -> (r: Option<HttpMethod>)
        ensures
            r == loose_method(s@),
            is_ascii(trimmed(s@)) ==> r == method_named(trimmed(s@).map_values(|c: char| ascii_upper(c))),
    {
        let v = chars_of(s);
        let t = trim_chars(v.as_slice());
        let ts = crate::text::string_from(t.as_slice());
        let up = to_uppercase(ts.as_str());
        HttpMethod::from_canonical(up.as_str())
    }
}

/// Where a route parameter comes from.
#[derive(Debug, Clone, Copy, PartialEq, Eq, Structural)]
pub enum ParamSource {
    /// The URL path, as in `/items/{item_id}`.
    Path,
    /// The query string.
    Query,
    /// The request body, such as a pydantic model.
    Body,
}

/// One parameter of a route, with its source and type.
#[derive(Debug, PartialEq)]
pub struct RouteParam {
    pub name: String,
    pub source: ParamSource,
    pub ty: TypeAnnotation,
    pub required: bool,
}

/// A route that an adapter found in a module.
#[derive(Debug, PartialEq)]
pub struct RouteInfo {
    pub method: HttpMethod,
    pub path: String,
    pub handler: Function,
    pub response_model: Option<String>,
    pub params: Vec<RouteParam>,
}

/// The parameter names of a `{param}` path template, in order: each `{` opens a name that
/// runs to the next `}` (or to the end), and empty names are dropped.
pub open spec fn path_params(s: Seq<char>) -> Seq<Seq<char>>
    decreases s.len(),
{
    if s.len() == 0 {
        Seq::empty()
    } else if s[0] == '{' {
        proof {
            crate::text::lemma_first_index(s.drop_first(), '}');
        }
        let (name, tail) = split_at_first(s.drop_first(), '}');
        if name.len() > 0 {
            seq![name] + path_params(tail)
        } else {
            path_params(tail)
        }
    } else {
        path_params(s.drop_first())
    }
}

/// The character sequences of a list of strings.
pub open spec fn views(v: Seq<String>) -> Seq<Seq<char>> {
    v.map_values(|x: String| x@)
}

/// Where a handler parameter named `name` with annotation `ty` is read from, for a route whose
/// path holds the parameters `path_names`.
pub open spec fn source_of(name: Seq<char>, ty: TypeAnnotation, path_names: Seq<Seq<char>>) -> ParamSource {
    if path_names.contains(name) {
        ParamSource::Path
    } else if ty is Class {
        ParamSource::Body
    } else {
        ParamSource::Query
    }
}

/// `params` describe the parameters of `handler` for a route on `path`: one each, in order.
pub open spec fn params_describe(params: Seq<RouteParam>, handler: Function, path: Seq<char>) -> bool {
    &&& params.len() == handler.params@.len()
    &&& forall|i: int| 0 <= i < params.len() ==> {
        let p = #[trigger] handler.params@[i];
        &&& params[i].name == p.name
        &&& params[i].source == source_of(p.name@, p.annotation, path_params(path))
        &&& params[i].ty.same(p.annotation)
        &&& params[i].required == (p.default is None)
    }
}

/// One step of `path_params` from position `i`.
proof fn lemma_path_params_step(v: Seq<char>, i: int)
    requires
        0 <= i < v.len(),
    ensures
        v[i] != '{' ==> path_params(v.skip(i)) == path_params(v.skip(i + 1)),
        v[i] == '{' ==> match first_index(v.skip(i + 1), '}') {
            Option::Some(k) => path_params(v.skip(i)) == (if k > 0 {
                seq![v.subrange(i + 1, i + 1 + k)]
            } else {
                Seq::<Seq<char>>::empty()
            }) + path_params(v.skip(i + 1 + k + 1)),
            Option::None => path_params(v.skip(i)) == (if i + 1 < v.len() {
                seq![v.skip(i + 1)]
            } else {
                Seq::<Seq<char>>::empty()
            }),
        },
{
    let s = v.skip(i);
    assert(s.drop_first() == v.skip(i + 1));
    crate::text::lemma_first_index(v.skip(i + 1), '}');
    if v[i] == '{' {
        match first_index(v.skip(i + 1), '}') {
            Option::Some(k) => {
                assert(v.skip(i + 1).take(k) == v.subrange(i + 1, i + 1 + k));
                assert(v.skip(i + 1).skip(k + 1) == v.skip(i + 1 + k + 1));
                if k == 0 {
                    assert(seq![] + path_params(v.skip(i + 1 + k + 1)) == path_params(
                        v.skip(i + 1 + k + 1),
                    ));
                }
            },
            Option::None => {
                assert(path_params(Seq::<char>::empty()) == Seq::<Seq<char>>::empty());
                assert(seq![v.skip(i + 1)] + Seq::<Seq<char>>::empty() == seq![v.skip(i + 1)]);
            },
        }
    }
}

/// Extracts the parameter names of a `{param}` style path template.
pub fn extract_path_params(path: &str) -> (r: Vec<String>)
    ensures
        views(r@) == path_params(path@),
{
    let v = chars_of(path);
    let mut out: Vec<String> = Vec::new();
    let mut i: usize = 0;
    assert(v@.skip(0) == v@);
    while i < v.len()
        invariant
            i <= v@.len(),
            v@ == path@,
            views(out@) + path_params(v@.skip(i as int)) == path_params(v@),
        decreases v@.len() - i,
    {
        proof { lemma_path_params_step(v@, i as int); }
        if v[i] == '{' {
            match find_char_from(v.as_slice(), i + 1, '}') {
                Some(k) => {
                    if k > i + 1 {
                        let name = string_of_range(v.as_slice(), i + 1, k);
                        let ghost before = views(out@);
                        out.push(name);
                        assert(views(out@) == before.push(name@));
                        assert(before.push(name@) + path_params(v@.skip(k + 1)) == before + (seq![name@]
                            + path_params(v@.skip(k + 1))));
                    } else {
                        assert(Seq::<Seq<char>>::empty() + path_params(v@.skip(k + 1)) == path_params(v@.skip(k + 1)));
                    }
                    i = k + 1;
                },
                None => {
                    if i + 1 < v.len() {
                        let name = string_of_range(v.as_slice(), i + 1, v.len());
                        let ghost before = views(out@);
                        out.push(name);
                        assert(v@.subrange(i + 1, v@.len() as int) == v@.skip(i + 1));
                        assert(views(out@) == before.push(name@));
                    }
                    assert(path_params(v@.skip(v@.len() as int)) == Seq::<Seq<char>>::empty());
                    i = v.len();
                },
            }
        } else {
            i = i + 1;
        }
    }
    assert(path_params(v@.skip(i as int)) == Seq::<Seq<char>>::empty());
    out
}

/// Whether `name` is one of `names`.
pub fn contains_name(names: &Vec<String>, name: &str) -> (r: bool)
    ensures
        r == views(names@).contains(name@),
{
    let mut i: usize = 0;
    while i < names.len()
        invariant
            i <= names@.len(),
            forall|j: int| 0 <= j < i ==> names@[j]@ != name@,
        decreases names@.len() - i,
    {
        if str_equal(names[i].as_str(), name) {
            assert(views(names@)[i as int] == name@);
            return true;
        }
        i = i + 1;
    }
    proof {
        if views(names@).contains(name@) {
            let j = choose|j: int| 0 <= j < views(names@).len() && views(names@)[j] == name@;
            assert(names@[j]@ == name@);
        }
    }
    false
}

impl RouteInfo {
    /// A route for `handler` on `path`, with its parameters classified.
    pub fn new(method: HttpMethod, path: &str, handler: Function) -> (r: RouteInfo)
        ensures
            r.method == method,
            r.path@ == path@,
            r.handler == handler,
            r.response_model is None,
            params_describe(r.params@, handler, path@),
    {
        let path_str = path.to_string();
        let params = Self::extract_params(&handler, path);
        RouteInfo { method, path: path_str, handler, response_model: None, params }
    }

    /// The same route, with a response model.
    pub fn with_response_model(self, model: &str) -> (r: RouteInfo)
        ensures
            r.method == self.method,
            r.path == self.path,
            r.handler == self.handler,
            r.params == self.params,
            r.response_model is Some,
            r.response_model->0@ == model@,
    {
        let mut r = self;
        r.response_model = Some(model.to_string());
        r
    }

    fn extract_params(handler: &Function, path: &str) -> (r: Vec<RouteParam>)
        ensures
            params_describe(r@, *handler, path@),
    {
        let names = extract_path_params(path);
        let mut params: Vec<RouteParam> = Vec::new();
        let mut i: usize = 0;
        while i < handler.params.len()
            invariant
                i <= handler.params@.len(),
                views(names@) == path_params(path@),
                params@.len() == i,
                forall|j: int| 0 <= j < i ==> {
                    let p = #[trigger] handler.params@[j];
                    &&& params@[j].name == p.name
                    &&& params@[j].source == source_of(p.name@, p.annotation, path_params(path@))
                    &&& params@[j].ty.same(p.annotation)
                    &&& params@[j].required == (p.default is None)
                },
            decreases handler.params@.len() - i,
        {
            let param = &handler.params[i];
            let source = if contains_name(&names, param.name.as_str()) {
                ParamSource::Path
            } else if matches!(param.annotation, TypeAnnotation::Class(_)) {
                ParamSource::Body
            } else {
                ParamSource::Query
            };
            let required = param.default.is_none();
            params.push(
                RouteParam {
                    name: param.name.clone(),
                    source,
                    ty: param.annotation.duplicate(),
                    required,
                },
            );
            i = i + 1;
        }
        params
    }
}

} // verus!
