use vstd::prelude::*;

use crate::hir::Function;

verus! {

/// HTTP methods of FastAPI routes.
#[derive(Debug, Clone, Copy, PartialEq, Eq, Structural)]
pub enum HttpMethod {
    Get,
    Post,
    Put,
    Delete,
    Patch,
}

/// The name of an HTTP method, in upper case.
pub open spec fn fastapi_method_name(m: HttpMethod) -> Seq<char> {
    match m {
        HttpMethod::Get => "GET"@,
        HttpMethod::Post => "POST"@,
        HttpMethod::Put => "PUT"@,
        HttpMethod::Delete => "DELETE"@,
        HttpMethod::Patch => "PATCH"@,
    }
}

/// A route that the FastAPI adapter found.
#[derive(Debug, PartialEq)]
pub struct RouteInfo {
    pub method: HttpMethod,
    pub path: String,
    pub handler: Function,
    pub response_model: Option<String>,
}

impl RouteInfo {
    /// A route for `handler` on `path`.
    pub fn new(method: HttpMethod, path: &str, handler: Function) -> (r: RouteInfo)
        ensures
            r.method == method,
            r.path@ == path@,
            r.handler == handler,
            r.response_model is None,
    {
        RouteInfo { method, path: path.to_string(), handler, response_model: None }
    }

    /// The same route, with a response model.
    pub fn with_response_model(self, model: &str) -> (r: RouteInfo)
        ensures
            r.method == self.method,
            r.path == self.path,
            r.handler == self.handler,
            r.response_model is Some,
            r.response_model->0@ == model@,
    {
        let mut r = self;
        r.response_model = Some(model.to_string());
        r
    }
}

} // verus!
