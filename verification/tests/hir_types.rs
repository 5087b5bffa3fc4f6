use celer::hir::{ClassDef, Expression, Module, TypeAnnotation};

#[test]
fn field_type_lookup() {
    let mut cls = ClassDef::new("User");
    cls.fields.push(("name".into(), TypeAnnotation::Str));
    cls.fields.push(("age".into(), TypeAnnotation::Int));

    assert_eq!(cls.field_type("name"), Some(&TypeAnnotation::Str));
    assert_eq!(cls.field_type("age"), Some(&TypeAnnotation::Int));
    assert_eq!(cls.field_type("missing"), None);
}

#[test]
fn has_base_check() {
    let mut cls = ClassDef::new("User");
    cls.bases.push("BaseModel".into());

    assert!(cls.has_base("BaseModel"));
    assert!(!cls.has_base("Other"));
}

#[test]
fn pydantic_model_detection() {
    let mut cls = ClassDef::new("User");
    assert!(!cls.is_pydantic_model());

    cls.bases.push("BaseModel".into());
    assert!(cls.is_pydantic_model());

    let mut cls2 = ClassDef::new("Item");
    cls2.bases.push("pydantic.BaseModel".into());
    assert!(cls2.is_pydantic_model());
}

#[test]
fn field_type_takes_the_first_of_equal_names() {
    let mut cls = ClassDef::new("Twice");
    cls.fields.push(("x".into(), TypeAnnotation::Int));
    cls.fields.push(("x".into(), TypeAnnotation::Str));
    assert_eq!(cls.field_type("x"), Some(&TypeAnnotation::Int));
    let mut other = ClassDef::new("M");
    other.bases.push("MyBaseModel".into());
    assert!(!other.is_pydantic_model());
}

#[test]
fn numeric_types() {
    assert!(TypeAnnotation::Int.is_numeric());
    assert!(TypeAnnotation::Float.is_numeric());
    assert!(!TypeAnnotation::Str.is_numeric());
}

#[test]
fn resolution_tracking() {
    assert!(!TypeAnnotation::Unknown.is_resolved());
    assert!(TypeAnnotation::Int.is_resolved());

    let list_unknown = TypeAnnotation::List(Box::new(TypeAnnotation::Unknown));
    assert!(!list_unknown.is_resolved());

    let list_int = TypeAnnotation::List(Box::new(TypeAnnotation::Int));
    assert!(list_int.is_resolved());
}

#[test]
fn nested_resolution() {
    let dict = TypeAnnotation::Dict(Box::new(TypeAnnotation::Str), Box::new(TypeAnnotation::Tuple(vec![TypeAnnotation::Int, TypeAnnotation::Unknown])));
    assert!(!dict.is_resolved());
    let callable = TypeAnnotation::Callable { params: vec![TypeAnnotation::Int], ret: Box::new(TypeAnnotation::NoneType) };
    assert!(callable.is_resolved());
    assert!(TypeAnnotation::Union(vec![]).is_resolved());
}

#[test]
fn literal_types() {
    assert_eq!(*Expression::IntLiteral(42).ty(), TypeAnnotation::Int);
    assert_eq!(*Expression::StringLiteral("hi".into()).ty(), TypeAnnotation::Str);
}

#[test]
fn empty_module() {
    let m = Module::new("main", "main.py");
    assert_eq!(m.name, "main");
    assert!(m.body.is_empty());
}
