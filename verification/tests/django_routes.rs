use celer::adapter::{extract_path_params, FrameworkAdapter, HttpMethod, ParamSource};
use celer::django::{detect_django, extract_routes, normalize_django_path, DjangoAdapter, DjangoError};
use celer::hir::{Expression, Function, Module, Parameter, Statement, TypeAnnotation};

fn make_view(name: &str, params: Vec<Parameter>) -> Function {
    Function {
        name: name.to_string(),
        params,
        return_type: TypeAnnotation::Dict(Box::new(TypeAnnotation::Str), Box::new(TypeAnnotation::Any)),
        body: vec![],
        decorators: vec![],
        is_async: false,
    }
}

fn make_path_call(pattern: &str, view_name: &str) -> Expression {
    Expression::Call {
        func: Box::new(Expression::Name { id: "path".to_string(), ty: TypeAnnotation::Any }),
        args: vec![
            Expression::StringLiteral(pattern.to_string()),
            Expression::Name { id: view_name.to_string(), ty: TypeAnnotation::Any },
        ],
        keywords: vec![],
        ty: TypeAnnotation::Any,
    }
}

fn make_django_module(views: Vec<Function>, patterns: Vec<Expression>) -> Module {
    let mut body: Vec<Statement> = views.into_iter().map(Statement::FunctionDef).collect();
    body.push(Statement::Assign {
        target: "urlpatterns".to_string(),
        annotation: None,
        value: Expression::List { elements: patterns, ty: TypeAnnotation::Any },
    });
    Module { name: "urls".to_string(), path: "urls.py".to_string(), body }
}

#[test]
fn simple_path() {
    let (path, params) = normalize_django_path("items/");
    assert_eq!(path, "/items");
    assert!(params.is_empty());
}

#[test]
fn typed_param() {
    let (path, params) = normalize_django_path("items/<int:item_id>/");
    assert_eq!(path, "/items/{item_id}");
    assert_eq!(params.len(), 1);
    assert_eq!(params[0].name, "item_id");
    assert_eq!(params[0].converter, Some("int".to_string()));
    assert_eq!(params[0].to_type_annotation(), TypeAnnotation::Int);
}

#[test]
fn untyped_param() {
    let (path, params) = normalize_django_path("users/<username>/");
    assert_eq!(path, "/users/{username}");
    assert_eq!(params.len(), 1);
    assert_eq!(params[0].name, "username");
    assert_eq!(params[0].converter, None);
    assert_eq!(params[0].to_type_annotation(), TypeAnnotation::Str);
}

#[test]
fn multiple_params() {
    let (path, params) = normalize_django_path("users/<int:user_id>/posts/<int:post_id>/");
    assert_eq!(path, "/users/{user_id}/posts/{post_id}");
    assert_eq!(params.len(), 2);
}

#[test]
fn slug_and_uuid() {
    let (_, params) = normalize_django_path("articles/<slug:slug>/<uuid:id>/");
    assert_eq!(params[0].to_type_annotation(), TypeAnnotation::Str);
    assert_eq!(params[1].to_type_annotation(), TypeAnnotation::Str);
}

#[test]
fn path_converter() {
    let (_, params) = normalize_django_path("files/<path:filepath>");
    assert_eq!(params[0].to_type_annotation(), TypeAnnotation::Str);
}

#[test]
fn root_path() {
    let (path, params) = normalize_django_path("");
    assert_eq!(path, "/");
    assert!(params.is_empty());
}

#[test]
fn already_prefixed() {
    let (path, _) = normalize_django_path("/api/items/");
    assert_eq!(path, "/api/items");
}

#[test]
fn normalized_django_params_are_the_path_params() {
    for p in ["users/<int:id>/posts/<slug:post>/", "<a>/", "/<str:x>", "plain/", "<>/<b>/"] {
        let (path, params) = normalize_django_path(p);
        let names: Vec<String> = params.iter().map(|q| q.name.clone()).filter(|n| !n.is_empty()).collect();
        assert_eq!(extract_path_params(&path), names, "{p}");
    }
    assert_eq!(normalize_django_path("users/<int:id>/posts/<slug:post>/").0, "/users/{id}/posts/{post}");
}

#[test]
fn django_paths_start_with_a_slash_and_drop_one_trailing_slash() {
    for p in ["a", "a/", "/a/b/", "<int:id>/"] {
        let (path, _) = normalize_django_path(p);
        assert!(path.starts_with('/'), "{path}");
        assert!(path == "/" || !path.ends_with('/'), "{path}");
    }
    assert_eq!(normalize_django_path("//x//").0, "//x/");
}

#[test]
fn detect_django_module() {
    let module = make_django_module(vec![], vec![]);
    assert!(detect_django(&module));
}

#[test]
fn detect_non_django_module() {
    let module = Module { name: "app".to_string(), path: "app.py".to_string(), body: vec![] };
    assert!(!detect_django(&module));
}

#[test]
fn extract_simple_route() {
    let view = make_view("index", vec![]);
    let module = make_django_module(vec![view], vec![make_path_call("", "index")]);
    let routes = extract_routes(&module).unwrap();
    assert_eq!(routes.len(), 1);
    assert_eq!(routes[0].path, "/");
    assert_eq!(routes[0].method, HttpMethod::Get);
    assert_eq!(routes[0].handler.name, "index");
}

#[test]
fn extract_route_with_int_param() {
    let view = make_view(
        "get_item",
        vec![Parameter { name: "item_id".into(), annotation: TypeAnnotation::Int, default: None }],
    );
    let module = make_django_module(vec![view], vec![make_path_call("items/<int:item_id>/", "get_item")]);
    let routes = extract_routes(&module).unwrap();
    assert_eq!(routes.len(), 1);
    assert_eq!(routes[0].path, "/items/{item_id}");
    assert_eq!(routes[0].params.len(), 1);
    assert_eq!(routes[0].params[0].source, ParamSource::Path);
}

#[test]
fn extract_multiple_routes() {
    let index = make_view("index", vec![]);
    let detail = make_view("detail", vec![Parameter { name: "pk".into(), annotation: TypeAnnotation::Int, default: None }]);
    let module = make_django_module(
        vec![index, detail],
        vec![make_path_call("", "index"), make_path_call("items/<int:pk>/", "detail")],
    );
    let routes = extract_routes(&module).unwrap();
    assert_eq!(routes.len(), 2);
    assert_eq!(routes[0].handler.name, "index");
    assert_eq!(routes[1].handler.name, "detail");
}

#[test]
fn missing_view_function() {
    let module = make_django_module(vec![], vec![make_path_call("items/", "nonexistent")]);
    let result = extract_routes(&module);
    assert!(result.is_err());
}

#[test]
fn no_urlpatterns() {
    let module = Module {
        name: "app".to_string(),
        path: "app.py".to_string(),
        body: vec![Statement::FunctionDef(make_view("index", vec![]))],
    };
    let result = extract_routes(&module);
    assert!(result.is_err());
}

#[test]
fn no_urlpatterns_error_message() {
    let module = Module { name: "app".to_string(), path: "app.py".to_string(), body: vec![] };
    let err = extract_routes(&module).unwrap_err();
    assert_eq!(err, DjangoError::NoUrlPatterns);
    assert_eq!(err.describe(), "no urlpatterns found in module");
}

#[test]
fn django_adapter_detects_and_extracts() {
    let module = make_django_module(vec![make_view("index", vec![])], vec![make_path_call("home/", "index")]);
    let adapter = DjangoAdapter;
    assert!(adapter.detect(&module));
    assert_eq!(adapter.name(), "Django");
    let routes = adapter.extract_routes(&module).unwrap();
    assert_eq!(routes[0].path, "/home");
}

#[test]
fn normalizing_a_normalized_django_path_gives_it_back() {
    for p in ["users/<int:id>/", "<slug:s>/posts/<p>", "/", "", "a/b/"] {
        let (n, _) = normalize_django_path(p);
        let (again, params) = normalize_django_path(&n);
        assert_eq!(again, n, "{p}");
        assert!(params.is_empty(), "{p}");
    }
}
