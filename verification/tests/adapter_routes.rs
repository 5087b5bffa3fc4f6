use celer::adapter::{extract_path_params, HttpMethod, ParamSource, RouteInfo};
use celer::hir::{Expression, Function, Parameter, TypeAnnotation};

fn dict_of_any() -> TypeAnnotation {
    TypeAnnotation::Dict(Box::new(TypeAnnotation::Str), Box::new(TypeAnnotation::Any))
}

#[test]
fn extract_path_params_basic() {
    assert_eq!(extract_path_params("/items/{item_id}"), vec!["item_id"]);
    assert_eq!(extract_path_params("/users/{user_id}/posts/{post_id}"), vec!["user_id", "post_id"]);
    assert!(extract_path_params("/health").is_empty());
}

#[test]
fn route_route_param_extraction() {
    let handler = Function {
        name: "get_item".into(),
        params: vec![
            Parameter { name: "item_id".into(), annotation: TypeAnnotation::Int, default: None },
            Parameter { name: "q".into(), annotation: TypeAnnotation::Str, default: Some(Expression::NoneLiteral) },
        ],
        return_type: dict_of_any(),
        body: vec![],
        decorators: vec![],
        is_async: false,
    };

    let route = RouteInfo::new(HttpMethod::Get, "/items/{item_id}", handler);
    assert_eq!(route.params.len(), 2);

    assert_eq!(route.params[0].name, "item_id");
    assert_eq!(route.params[0].source, ParamSource::Path);
    assert!(route.params[0].required);

    assert_eq!(route.params[1].name, "q");
    assert_eq!(route.params[1].source, ParamSource::Query);
    assert!(!route.params[1].required);
}

#[test]
fn route_body_param_detection() {
    let handler = Function {
        name: "create_item".into(),
        params: vec![Parameter { name: "item".into(), annotation: TypeAnnotation::Class("Item".into()), default: None }],
        return_type: dict_of_any(),
        body: vec![],
        decorators: vec![],
        is_async: false,
    };

    let route = RouteInfo::new(HttpMethod::Post, "/items", handler);
    assert_eq!(route.params.len(), 1);
    assert_eq!(route.params[0].source, ParamSource::Body);
}

#[test]
fn http_method_from_str_loose() {
    assert_eq!(HttpMethod::from_str_loose("GET"), Some(HttpMethod::Get));
    assert_eq!(HttpMethod::from_str_loose("get"), Some(HttpMethod::Get));
    assert_eq!(HttpMethod::from_str_loose("Post"), Some(HttpMethod::Post));
    assert_eq!(HttpMethod::from_str_loose("unknown"), None);
}

#[test]
fn method_names_are_trimmed_before_matching() {
    assert_eq!(HttpMethod::from_str_loose("  delete\n"), Some(HttpMethod::Delete));
    assert_eq!(HttpMethod::from_str_loose("PaTcH"), Some(HttpMethod::Patch));
    assert_eq!(HttpMethod::from_str_loose(""), None);
}

#[test]
fn route_with_response_model_keeps_route() {
    let handler = Function {
        name: "h".into(),
        params: vec![],
        return_type: TypeAnnotation::Str,
        body: vec![],
        decorators: vec![],
        is_async: false,
    };
    let route = RouteInfo::new(HttpMethod::Put, "/x/{id}", handler).with_response_model("Item");
    assert_eq!(route.response_model, Some("Item".to_string()));
    assert_eq!(route.path, "/x/{id}");
    assert_eq!(route.method, HttpMethod::Put);
}

#[test]
fn path_params_skip_empty_braces() {
    assert_eq!(extract_path_params("/a/{}/b/{x}"), vec!["x"]);
    assert_eq!(extract_path_params("/a/{open"), vec!["open"]);
}
