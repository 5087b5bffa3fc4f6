use celer::fastapi::route::HttpMethod;
use celer::fastapi::FastApiAdapter;
use celer::hir::{Function, Module, Statement, TypeAnnotation};

fn handler(name: &str, decorator: &str) -> Function {
    Function {
        name: name.to_string(),
        params: vec![],
        return_type: TypeAnnotation::Str,
        body: vec![],
        decorators: vec![decorator.to_string()],
        is_async: true,
    }
}

#[test]
fn extract_get_route() {
    let func = Function {
        name: "index".to_string(),
        params: vec![],
        return_type: TypeAnnotation::Str,
        body: vec![],
        decorators: vec!["app.get(\"/\")".to_string()],
        is_async: true,
    };
    let module = Module { name: "main".to_string(), path: "main.py".to_string(), body: vec![Statement::FunctionDef(func)] };
    let routes = FastApiAdapter::extract_routes(&module).unwrap();
    assert_eq!(routes.len(), 1);
    assert_eq!(routes[0].path, "/");
    assert_eq!(routes[0].method, HttpMethod::Get);
}

#[test]
fn fastapi_methods_and_single_quotes() {
    let module = Module {
        name: "main".to_string(),
        path: "main.py".to_string(),
        body: vec![
            Statement::FunctionDef(handler("a", "router.post('/items')")),
            Statement::FunctionDef(handler("b", "app.delete(\"/items/{id}\")")),
            Statement::FunctionDef(handler("c", "app.patch")),
            Statement::FunctionDef(handler("d", "staticmethod")),
        ],
    };
    let routes = FastApiAdapter::extract_routes(&module).unwrap();
    assert_eq!(routes.len(), 3);
    assert_eq!(routes[0].method, HttpMethod::Post);
    assert_eq!(routes[0].path, "/items");
    assert_eq!(routes[1].method, HttpMethod::Delete);
    assert_eq!(routes[1].path, "/items/{id}");
    assert_eq!(routes[2].method, HttpMethod::Patch);
    assert_eq!(routes[2].path, "/");
}
