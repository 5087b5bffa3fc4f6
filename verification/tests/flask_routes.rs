use celer::adapter::{extract_path_params, FrameworkAdapter, HttpMethod, ParamSource};
use celer::flask::route::normalize_flask_path;
use celer::flask::adapter::methods_list_readable;
use celer::flask::FlaskAdapter;
use celer::hir::{Expression, Function, Module, Parameter, Statement, TypeAnnotation};

fn make_handler(name: &str, decorators: Vec<&str>) -> Function {
    Function {
        name: name.to_string(),
        params: vec![],
        return_type: TypeAnnotation::Str,
        body: vec![],
        decorators: decorators.into_iter().map(String::from).collect(),
        is_async: false,
    }
}

fn make_module(functions: Vec<Function>) -> Module {
    Module {
        name: "app".to_string(),
        path: "app.py".to_string(),
        body: functions.into_iter().map(Statement::FunctionDef).collect(),
    }
}

#[test]
fn normalize_simple_param() {
    let (path, params) = normalize_flask_path("/items/<item_id>");
    assert_eq!(path, "/items/{item_id}");
    assert_eq!(params.len(), 1);
    assert_eq!(params[0].name, "item_id");
    assert_eq!(params[0].flask_type, None);
}

#[test]
fn normalize_typed_param() {
    let (path, params) = normalize_flask_path("/items/<int:item_id>");
    assert_eq!(path, "/items/{item_id}");
    assert_eq!(params.len(), 1);
    assert_eq!(params[0].name, "item_id");
    assert_eq!(params[0].flask_type, Some("int".to_string()));
    assert_eq!(params[0].to_type_annotation(), TypeAnnotation::Int);
}

#[test]
fn normalize_multiple_params() {
    let (path, params) = normalize_flask_path("/users/<int:user_id>/posts/<int:post_id>");
    assert_eq!(path, "/users/{user_id}/posts/{post_id}");
    assert_eq!(params.len(), 2);
    assert_eq!(params[0].name, "user_id");
    assert_eq!(params[1].name, "post_id");
}

#[test]
fn normalize_no_params() {
    let (path, params) = normalize_flask_path("/health");
    assert_eq!(path, "/health");
    assert!(params.is_empty());
}

#[test]
fn normalize_float_and_path_types() {
    let (_, params) = normalize_flask_path("/data/<float:ratio>/<path:filepath>");
    assert_eq!(params[0].to_type_annotation(), TypeAnnotation::Float);
    assert_eq!(params[1].to_type_annotation(), TypeAnnotation::Str);
}

#[test]
fn extract_params_from_normalized_path() {
    let params = extract_path_params("/items/{item_id}");
    assert_eq!(params, vec!["item_id"]);
}

#[test]
fn unknown_flask_converter_is_any() {
    let (_, params) = normalize_flask_path("/x/<weird:v>");
    assert_eq!(params[0].to_type_annotation(), TypeAnnotation::Any);
}

#[test]
fn normalized_flask_params_are_the_path_params() {
    let (path, params) = normalize_flask_path("/a/<int:x>/b/<y>/c");
    let names: Vec<String> = params.iter().map(|p| p.name.clone()).collect();
    assert_eq!(extract_path_params(&path), names);
}

#[test]
fn extract_route_default_get() {
    let func = make_handler("index", vec!["app.route(\"/\")"]);
    let module = make_module(vec![func]);
    let routes = FlaskAdapter::extract_routes_static(&module).unwrap();
    assert_eq!(routes.len(), 1);
    assert_eq!(routes[0].path, "/");
    assert_eq!(routes[0].method, HttpMethod::Get);
    assert_eq!(routes[0].handler.name, "index");
}

#[test]
fn extract_route_explicit_get() {
    let func = make_handler("index", vec!["app.route(\"/\", methods=[\"GET\"])"]);
    let module = make_module(vec![func]);
    let routes = FlaskAdapter::extract_routes_static(&module).unwrap();
    assert_eq!(routes.len(), 1);
    assert_eq!(routes[0].method, HttpMethod::Get);
}

#[test]
fn extract_route_multiple_methods() {
    let func = make_handler("handle", vec!["app.route(\"/data\", methods=[\"GET\", \"POST\"])"]);
    let module = make_module(vec![func]);
    let routes = FlaskAdapter::extract_routes_static(&module).unwrap();
    assert_eq!(routes.len(), 2);
    assert_eq!(routes[0].method, HttpMethod::Get);
    assert_eq!(routes[0].path, "/data");
    assert_eq!(routes[1].method, HttpMethod::Post);
    assert_eq!(routes[1].path, "/data");
}

#[test]
fn extract_flask2_shorthand_get() {
    let func = make_handler("index", vec!["app.get(\"/\")"]);
    let module = make_module(vec![func]);
    let routes = FlaskAdapter::extract_routes_static(&module).unwrap();
    assert_eq!(routes.len(), 1);
    assert_eq!(routes[0].method, HttpMethod::Get);
}

#[test]
fn extract_flask2_shorthand_post() {
    let func = make_handler("create", vec!["app.post(\"/items\")"]);
    let module = make_module(vec![func]);
    let routes = FlaskAdapter::extract_routes_static(&module).unwrap();
    assert_eq!(routes.len(), 1);
    assert_eq!(routes[0].method, HttpMethod::Post);
    assert_eq!(routes[0].path, "/items");
}

#[test]
fn extract_flask2_shorthand_all_methods() {
    for (dec, expected) in [
        ("app.get(\"/\")", HttpMethod::Get),
        ("app.post(\"/\")", HttpMethod::Post),
        ("app.put(\"/\")", HttpMethod::Put),
        ("app.delete(\"/\")", HttpMethod::Delete),
        ("app.patch(\"/\")", HttpMethod::Patch),
    ] {
        let func = make_handler("handler", vec![dec]);
        let module = make_module(vec![func]);
        let routes = FlaskAdapter::extract_routes_static(&module).unwrap();
        assert_eq!(routes[0].method, expected);
    }
}

#[test]
fn flask_path_params_normalized() {
    let func = make_handler("get_item", vec!["app.route(\"/items/<int:item_id>\")"]);
    let module = make_module(vec![func]);
    let routes = FlaskAdapter::extract_routes_static(&module).unwrap();
    assert_eq!(routes.len(), 1);
    assert_eq!(routes[0].path, "/items/{item_id}");
}

#[test]
fn flask_path_params_untyped() {
    let func = make_handler("get_user", vec!["app.route(\"/users/<username>\")"]);
    let module = make_module(vec![func]);
    let routes = FlaskAdapter::extract_routes_static(&module).unwrap();
    assert_eq!(routes[0].path, "/users/{username}");
}

#[test]
fn flask_path_with_handler_params() {
    let func = Function {
        name: "get_item".to_string(),
        params: vec![
            Parameter { name: "item_id".into(), annotation: TypeAnnotation::Int, default: None },
            Parameter { name: "q".into(), annotation: TypeAnnotation::Str, default: Some(Expression::NoneLiteral) },
        ],
        return_type: TypeAnnotation::Str,
        body: vec![],
        decorators: vec!["app.route(\"/items/<int:item_id>\")".to_string()],
        is_async: false,
    };

    let module = make_module(vec![func]);
    let routes = FlaskAdapter::extract_routes_static(&module).unwrap();
    assert_eq!(routes[0].params.len(), 2);

    assert_eq!(routes[0].params[0].name, "item_id");
    assert_eq!(routes[0].params[0].source, ParamSource::Path);
    assert!(routes[0].params[0].required);

    assert_eq!(routes[0].params[1].name, "q");
    assert_eq!(routes[0].params[1].source, ParamSource::Query);
    assert!(!routes[0].params[1].required);
}

#[test]
fn multiple_routes_in_module() {
    let module = make_module(vec![
        make_handler("index", vec!["app.get(\"/\")"]),
        make_handler("create", vec!["app.post(\"/items\")"]),
        make_handler("health", vec!["app.route(\"/health\")"]),
    ]);
    let routes = FlaskAdapter::extract_routes_static(&module).unwrap();
    assert_eq!(routes.len(), 3);
}

#[test]
fn no_decorators_no_routes() {
    let func = Function {
        name: "helper".to_string(),
        params: vec![],
        return_type: TypeAnnotation::Str,
        body: vec![],
        decorators: vec![],
        is_async: false,
    };
    let module = make_module(vec![func]);
    let routes = FlaskAdapter::extract_routes_static(&module).unwrap();
    assert!(routes.is_empty());
}

#[test]
fn single_quoted_path() {
    let func = make_handler("index", vec!["app.route('/')"]);
    let module = make_module(vec![func]);
    let routes = FlaskAdapter::extract_routes_static(&module).unwrap();
    assert_eq!(routes[0].path, "/");
}

#[test]
fn methods_with_single_quotes() {
    let func = make_handler("handle", vec!["app.route('/data', methods=['GET', 'POST'])"]);
    let module = make_module(vec![func]);
    let routes = FlaskAdapter::extract_routes_static(&module).unwrap();
    assert_eq!(routes.len(), 2);
    assert_eq!(routes[0].method, HttpMethod::Get);
    assert_eq!(routes[1].method, HttpMethod::Post);
}

#[test]
fn trait_detect_flask_route() {
    let func = make_handler("index", vec!["app.route(\"/\")"]);
    let module = make_module(vec![func]);
    let adapter = FlaskAdapter;
    assert!(adapter.detect(&module));
    let routes = adapter.extract_routes(&module).unwrap();
    assert_eq!(routes.len(), 1);
}

#[test]
fn flask_adapter_is_named_flask() {
    assert_eq!(FlaskAdapter.name(), "Flask");
}

#[test]
fn only_route_decorators_need_readable_method_lists() {
    assert!(methods_list_readable("cache(methods=] [)"));
    assert!(methods_list_readable("app.route(\"/x\", methods=[\"GET\"])"));
    assert!(!methods_list_readable("app.route(\"/x\", methods=]\"GET\"[)"));
    let func = make_handler("index", vec!["cache(methods=] [)", "app.route(\"/\")"]);
    let module = make_module(vec![func]);
    assert!(FlaskAdapter::can_read(&module));
    let routes = FlaskAdapter::extract_routes_static(&module).unwrap();
    assert_eq!(routes.len(), 1);
    assert_eq!(routes[0].path, "/");
    let bad = make_module(vec![make_handler("f", vec!["app.route(\"/x\", methods=]\"GET\"[)"])]);
    assert!(!FlaskAdapter::can_read(&bad));
}

#[test]
fn single_quoted_path_before_double_quoted_methods() {
    let func = make_handler("data", vec!["app.route('/data', methods=[\"GET\", \"POST\"])"]);
    let module = make_module(vec![func]);
    let routes = FlaskAdapter::extract_routes_static(&module).unwrap();
    assert_eq!(routes.len(), 2);
    assert_eq!(routes[0].path, "/data");
    assert_eq!(routes[1].path, "/data");
    let shorthand = make_handler("g", vec!["app.get('/x/<int:id>', name=\"y\")"]);
    let routes = FlaskAdapter::extract_routes_static(&make_module(vec![shorthand])).unwrap();
    assert_eq!(routes[0].path, "/x/{id}");
}
