use celer::codegen::collection::emit_list_subscript;
use celer::codegen::compiler::Compiler;
use celer::codegen::emit_expr::emit_expression;
use celer::codegen::context::CodegenContext;
use celer::codegen::emit_json::{escape_json, plan_dict, ArgFormat, JsonPlan};
use celer::codegen::emit_stmt::emit_statement;
use celer::codegen::plan::{
    ArgPass, IndexCheck,
    BinaryLowering, BoolConversion, BuiltinLowering, Ending, FunctionPlan, IntOp, IntPredicate, Stmt, UnaryLowering, Value,
};
use celer::codegen::types::LlvmType;
use celer::codegen::{CodegenError, CodegenStop};
use celer::hir::{BinaryOp, Expression, Function, Module, Parameter, Statement, TypeAnnotation, UnaryOp};

fn dict_any() -> TypeAnnotation {
    TypeAnnotation::Dict(Box::new(TypeAnnotation::Str), Box::new(TypeAnnotation::Any))
}

fn name(id: &str, ty: TypeAnnotation) -> Expression {
    Expression::Name { id: id.into(), ty }
}

fn lit(n: i64) -> Expression {
    Expression::IntLiteral(n)
}

fn bin(op: BinaryOp, l: Expression, r: Expression, ty: TypeAnnotation) -> Expression {
    Expression::BinaryOp { op, left: Box::new(l), right: Box::new(r), ty }
}

fn call(f: &str, args: Vec<Expression>, ty: TypeAnnotation) -> Expression {
    Expression::Call { func: Box::new(name(f, TypeAnnotation::Any)), args, keywords: vec![], ty }
}

fn param(n: &str, ty: TypeAnnotation) -> Parameter {
    Parameter { name: n.into(), annotation: ty, default: None }
}

fn func(n: &str, params: Vec<Parameter>, ret: TypeAnnotation, body: Vec<Statement>) -> Function {
    Function { name: n.into(), params, return_type: ret, body, decorators: vec![], is_async: false }
}

fn lowering(funcs: Vec<Function>) -> Result<Compiler, CodegenStop> {
    let module = Module { name: "test".into(), path: "test.py".into(), body: funcs.into_iter().map(Statement::FunctionDef).collect() };
    let mut c = Compiler::new("test");
    c.compile_module(&module)?;
    Ok(c)
}

fn compile(funcs: Vec<Function>) -> Result<Compiler, CodegenError> {
    match lowering(funcs) {
        Ok(c) => Ok(c),
        Err(CodegenStop::Error(e)) => Err(e),
        Err(CodegenStop::BuilderPanic) => panic!("the instruction builder would panic"),
    }
}

fn compiled(funcs: Vec<Function>) -> Compiler {
    let module = Module { name: "test".into(), path: "test.py".into(), body: funcs.into_iter().map(Statement::FunctionDef).collect() };
    let mut c = Compiler::new("test");
    c.compile_module(&module).unwrap();
    c
}

#[test]
fn static_dict_plan() {
    let keys = vec![Expression::StringLiteral("message".into())];
    let values = vec![Expression::StringLiteral("hello".into())];
    let plan = plan_dict(&keys, &values).unwrap();
    match plan {
        JsonPlan::Static(s) => {
            assert_eq!(s, r#"{"message": "hello"}"#);
        },
        _ => panic!("expected static plan"),
    }
}

#[test]
fn dynamic_dict_plan() {
    let keys = vec![Expression::StringLiteral("item_id".into()), Expression::StringLiteral("name".into())];
    let values = vec![name("item_id", TypeAnnotation::Int), Expression::StringLiteral("test".into())];
    let plan = plan_dict(&keys, &values).unwrap();
    match plan {
        JsonPlan::Dynamic { format, args } => {
            assert!(format.contains("%lld"));
            assert_eq!(args.len(), 1);
            assert_eq!(args[0].name, "item_id");
        },
        _ => panic!("expected dynamic plan"),
    }
}

#[test]
fn dynamic_dict_plan_exact_format() {
    let keys = vec![
        Expression::StringLiteral("a".into()),
        Expression::StringLiteral("b".into()),
        Expression::StringLiteral("c".into()),
        Expression::StringLiteral("d".into()),
        Expression::StringLiteral("e".into()),
    ];
    let values = vec![
        name("x", TypeAnnotation::Float),
        name("s", TypeAnnotation::Str),
        name("f", TypeAnnotation::Bool),
        Expression::NoneLiteral,
        Expression::FloatLiteral("2.5".into()),
    ];
    match plan_dict(&keys, &values).unwrap() {
        JsonPlan::Dynamic { format, args } => {
            assert_eq!(format, "{\"a\": %g, \"b\": \"%s\", \"c\": %s, \"d\": null, \"e\": 2.5}");
            assert_eq!(args.len(), 3);
            assert_eq!(args[0].fmt, ArgFormat::F64);
            assert_eq!(args[1].fmt, ArgFormat::Str);
            assert_eq!(args[2].fmt, ArgFormat::Bool);
        },
        _ => panic!("expected dynamic plan"),
    }
}

#[test]
fn dict_plan_errors() {
    let err = plan_dict(&[lit(1)], &[lit(2)]).unwrap_err();
    assert_eq!(err, CodegenError::UnsupportedExpression("dict key must be a string literal".into()));
    let err = plan_dict(&[Expression::StringLiteral("k".into())], &[name("l", TypeAnnotation::List(Box::new(TypeAnnotation::Int)))]).unwrap_err();
    assert_eq!(err, CodegenError::UnsupportedType("dynamic dict value type: List(Int)".into()));
}

#[test]
fn escape_json_escapes_five_characters() {
    assert_eq!(escape_json("a\"b\\c\nd\re\tf"), "a\\\"b\\\\c\\nd\\re\\tf");
    assert_eq!(escape_json("plain"), "plain");
}

#[test]
fn plan_static_dict_root_function() {
    let root = func(
        "root",
        vec![],
        dict_any(),
        vec![Statement::Return {
            value: Some(Expression::Dict {
                keys: vec![Expression::StringLiteral("message".into())],
                values: vec![Expression::StringLiteral("hello".into())],
                ty: dict_any(),
            }),
        }],
    );
    let c = compile(vec![root]).unwrap();
    let plans = c.functions();
    assert_eq!(plans.len(), 1);
    assert_eq!(plans[0].name, "root");
    assert!(plans[0].json);
    assert_eq!(plans[0].ret, None);
    assert_eq!(
        plans[0].ending,
        Ending::Json { plan: JsonPlan::Static("{\"message\": \"hello\"}".into()), passes: vec![] }
    );
}

#[test]
fn plan_dynamic_dict_with_param() {
    let f = func(
        "get_item",
        vec![param("item_id", TypeAnnotation::Int)],
        dict_any(),
        vec![Statement::Return {
            value: Some(Expression::Dict {
                keys: vec![Expression::StringLiteral("item_id".into()), Expression::StringLiteral("name".into())],
                values: vec![name("item_id", TypeAnnotation::Int), Expression::StringLiteral("test".into())],
                ty: dict_any(),
            }),
        }],
    );
    let c = compiled(vec![f]);
    let p = &c.functions()[0];
    assert_eq!(p.params, vec![("item_id".to_string(), LlvmType::I64)]);
    match &p.ending {
        Ending::Json { plan: JsonPlan::Dynamic { format, args }, passes } => {
            assert_eq!(format, "{\"item_id\": %lld, \"name\": \"test\"}");
            assert_eq!(args[0].name, "item_id");
            assert_eq!(passes, &vec![ArgPass::Load(LlvmType::I64)]);
        },
        other => panic!("unexpected ending {other:?}"),
    }
}

#[test]
fn plan_json_function_needs_a_dict_return() {
    let none = func("f", vec![], dict_any(), vec![Statement::Pass]);
    assert_eq!(
        compile(vec![none]).unwrap_err(),
        CodegenError::UnsupportedExpression("JSON function must have a return statement with a dict".into())
    );
    let not_dict = func("g", vec![], dict_any(), vec![Statement::Return { value: Some(lit(1)) }]);
    assert_eq!(compile(vec![not_dict]).unwrap_err(), CodegenError::UnsupportedExpression("JSON function must return a dict literal".into()));
    let unknown = func(
        "h",
        vec![],
        dict_any(),
        vec![Statement::Return {
            value: Some(Expression::Dict {
                keys: vec![Expression::StringLiteral("k".into())],
                values: vec![name("missing", TypeAnnotation::Int)],
                ty: dict_any(),
            }),
        }],
    );
    assert_eq!(compile(vec![unknown]).unwrap_err(), CodegenError::UndefinedVariable("missing".into()));
}

#[test]
fn plan_scalar_int_function() {
    let f = func("identity", vec![param("x", TypeAnnotation::Int)], TypeAnnotation::Int, vec![Statement::Return { value: Some(name("x", TypeAnnotation::Int)) }]);
    let c = compiled(vec![f]);
    let p = &c.functions()[0];
    assert_eq!(p.ret, Some(LlvmType::I64));
    assert!(!p.json);
    assert_eq!(p.body, vec![Stmt::Return(Some(Value::Load { name: "x".into(), ty: LlvmType::I64 }))]);
    assert_eq!(p.ending, Ending::Terminated);
}

#[test]
fn plan_module_without_functions() {
    let c = compiled(vec![]);
    assert!(c.functions().is_empty());
    assert_eq!(c.module_name(), "test");
}

#[test]
fn plan_binary_add_and_unary_neg() {
    let add = func(
        "add",
        vec![param("a", TypeAnnotation::Int), param("b", TypeAnnotation::Int)],
        TypeAnnotation::Int,
        vec![Statement::Return { value: Some(bin(BinaryOp::Add, name("a", TypeAnnotation::Int), name("b", TypeAnnotation::Int), TypeAnnotation::Int)) }],
    );
    let neg = func(
        "neg",
        vec![param("x", TypeAnnotation::Int)],
        TypeAnnotation::Int,
        vec![Statement::Return {
            value: Some(Expression::UnaryOp { op: UnaryOp::Neg, operand: Box::new(name("x", TypeAnnotation::Int)), ty: TypeAnnotation::Int }),
        }],
    );
    let c = compiled(vec![add, neg]);
    match &c.functions()[0].body[0] {
        Stmt::Return(Some(Value::Binary { op, .. })) => assert_eq!(*op, BinaryLowering::Int(IntOp::Add)),
        other => panic!("unexpected {other:?}"),
    }
    match &c.functions()[1].body[0] {
        Stmt::Return(Some(Value::Unary { op, .. })) => assert_eq!(*op, UnaryLowering::IntNeg),
        other => panic!("unexpected {other:?}"),
    }
}

#[test]
fn plan_if_else_branching() {
    let f = func(
        "max",
        vec![param("a", TypeAnnotation::Int), param("b", TypeAnnotation::Int)],
        TypeAnnotation::Int,
        vec![Statement::If {
            test: bin(BinaryOp::Gt, name("a", TypeAnnotation::Int), name("b", TypeAnnotation::Int), TypeAnnotation::Bool),
            body: vec![Statement::Return { value: Some(name("a", TypeAnnotation::Int)) }],
            orelse: vec![Statement::Return { value: Some(name("b", TypeAnnotation::Int)) }],
        }],
    );
    let c = compiled(vec![f]);
    let p = &c.functions()[0];
    match &p.body[0] {
        Stmt::If { cond: Value::Binary { op, .. }, conversion, then_falls, else_falls, .. } => {
            assert_eq!(*op, BinaryLowering::IntCompare(IntPredicate::SignedGreater));
            assert_eq!(*conversion, BoolConversion::Keep);
            assert!(!then_falls);
            assert!(!else_falls);
        },
        other => panic!("unexpected {other:?}"),
    }
    // After an `if`, code continues in the merge block, so the function still needs its return.
    assert_eq!(p.ending, Ending::ReturnZero(LlvmType::I64));
}

#[test]
fn plan_while_loop_fibonacci() {
    let i = |n: &str| name(n, TypeAnnotation::Int);
    let f = func(
        "fib",
        vec![param("n", TypeAnnotation::Int)],
        TypeAnnotation::Int,
        vec![
            Statement::Assign { target: "a".into(), annotation: None, value: lit(0) },
            Statement::Assign { target: "b".into(), annotation: None, value: lit(1) },
            Statement::Assign { target: "i".into(), annotation: None, value: lit(0) },
            Statement::While {
                test: bin(BinaryOp::Lt, i("i"), i("n"), TypeAnnotation::Bool),
                body: vec![
                    Statement::Assign { target: "t".into(), annotation: None, value: bin(BinaryOp::Add, i("a"), i("b"), TypeAnnotation::Int) },
                    Statement::Assign { target: "a".into(), annotation: None, value: i("b") },
                    Statement::Assign { target: "b".into(), annotation: None, value: i("t") },
                    Statement::AugAssign { target: "i".into(), op: BinaryOp::Add, value: lit(1) },
                ],
            },
            Statement::Return { value: Some(i("a")) },
        ],
    );
    let c = compiled(vec![f]);
    let p = &c.functions()[0];
    assert_eq!(p.body.len(), 5);
    assert_eq!(p.body[0], Stmt::Assign { target: "a".into(), value: Value::ConstInt(0), new_slot: Some(LlvmType::I64) });
    match &p.body[3] {
        Stmt::While { body, body_falls, .. } => {
            assert!(body_falls);
            match &body[1] {
                Stmt::Assign { new_slot, .. } => assert_eq!(*new_slot, None),
                other => panic!("unexpected {other:?}"),
            }
            match &body[3] {
                Stmt::AugAssign { op, rhs_kind, .. } => {
                    assert_eq!(*op, BinaryLowering::Int(IntOp::Add));
                    assert_eq!(*rhs_kind, LlvmType::I64);
                },
                other => panic!("unexpected {other:?}"),
            }
        },
        other => panic!("unexpected {other:?}"),
    }
    assert_eq!(p.ending, Ending::Terminated);
}

#[test]
fn plan_for_loop_range_variants() {
    let i = |n: &str| name(n, TypeAnnotation::Int);
    let body = || vec![Statement::AugAssign { target: "s".into(), op: BinaryOp::Add, value: i("k") }];
    let mk = |args: Vec<Expression>| {
        func(
            "sum",
            vec![param("n", TypeAnnotation::Int)],
            TypeAnnotation::Int,
            vec![
                Statement::Assign { target: "s".into(), annotation: None, value: lit(0) },
                Statement::For { target: "k".into(), iter: call("range", args, TypeAnnotation::Any), body: body() },
                Statement::Return { value: Some(i("s")) },
            ],
        )
    };
    for (args, start, step) in [
        (vec![i("n")], Value::ConstInt(0), Value::ConstInt(1)),
        (vec![lit(2), i("n")], Value::ConstInt(2), Value::ConstInt(1)),
        (vec![lit(2), i("n"), lit(3)], Value::ConstInt(2), Value::ConstInt(3)),
    ] {
        let c = compiled(vec![mk(args)]);
        match &c.functions()[0].body[1] {
            Stmt::For { target, start: s, stop, step: st, body_falls, .. } => {
                assert_eq!(target, "k");
                assert_eq!(*s, start);
                assert_eq!(*stop, Value::Load { name: "n".into(), ty: LlvmType::I64 });
                assert_eq!(*st, step);
                assert!(body_falls);
            },
            other => panic!("unexpected {other:?}"),
        }
    }
    let bad = func("w", vec![], TypeAnnotation::NoneType, vec![Statement::For { target: "k".into(), iter: call("iter", vec![lit(1)], TypeAnnotation::Any), body: vec![] }]);
    assert_eq!(compile(vec![bad]).unwrap_err(), CodegenError::UnsupportedExpression("only range() for loops supported".into()));
}

#[test]
fn plan_comparison_and_string_operations() {
    let s = |n: &str| name(n, TypeAnnotation::Str);
    let f = func(
        "same",
        vec![param("a", TypeAnnotation::Str), param("b", TypeAnnotation::Str)],
        TypeAnnotation::Bool,
        vec![Statement::Return { value: Some(bin(BinaryOp::Eq, s("a"), s("b"), TypeAnnotation::Bool)) }],
    );
    let g = func(
        "cat",
        vec![param("a", TypeAnnotation::Str), param("b", TypeAnnotation::Str)],
        TypeAnnotation::Int,
        vec![Statement::Return { value: Some(call("len", vec![bin(BinaryOp::Add, s("a"), s("b"), TypeAnnotation::Str)], TypeAnnotation::Int)) }],
    );
    let c = compiled(vec![f, g]);
    match &c.functions()[0].body[0] {
        Stmt::Return(Some(Value::Binary { op, .. })) => assert_eq!(*op, BinaryLowering::StrCompare { equal: true }),
        other => panic!("unexpected {other:?}"),
    }
    match &c.functions()[1].body[0] {
        Stmt::Return(Some(Value::Builtin { op: BuiltinLowering::StrLen, arg })) => match &**arg {
            Value::Binary { op, .. } => assert_eq!(*op, BinaryLowering::StrConcat),
            other => panic!("unexpected {other:?}"),
        },
        other => panic!("unexpected {other:?}"),
    }
}

#[test]
fn plan_builtin_conversions() {
    let cases = [
        ("str", TypeAnnotation::Int, TypeAnnotation::Str, BuiltinLowering::StrFromInt),
        ("int", TypeAnnotation::Str, TypeAnnotation::Int, BuiltinLowering::IntFromStr),
        ("float", TypeAnnotation::Str, TypeAnnotation::Float, BuiltinLowering::FloatFromStr),
        ("bool", TypeAnnotation::Int, TypeAnnotation::Bool, BuiltinLowering::BoolFromInt),
    ];
    for (b, arg_ty, ret, expected) in cases {
        let arg_ty2 = match arg_ty {
            TypeAnnotation::Int => TypeAnnotation::Int,
            _ => TypeAnnotation::Str,
        };
        let ret_ty = match ret {
            TypeAnnotation::Str => TypeAnnotation::Int,
            other => other,
        };
        let body = if b == "str" {
            vec![Statement::Return { value: Some(call("len", vec![call(b, vec![name("x", arg_ty2)], TypeAnnotation::Str)], TypeAnnotation::Int)) }]
        } else {
            vec![Statement::Return { value: Some(call(b, vec![name("x", arg_ty2)], TypeAnnotation::Any)) }]
        };
        let c = compiled(vec![func("f", vec![param("x", arg_ty)], ret_ty, body)]);
        let found = match &c.functions()[0].body[0] {
            Stmt::Return(Some(Value::Builtin { op: BuiltinLowering::StrLen, arg })) => match &**arg {
                Value::Builtin { op, .. } => *op,
                other => panic!("unexpected {other:?}"),
            },
            Stmt::Return(Some(Value::Builtin { op, .. })) => *op,
            other => panic!("unexpected {other:?}"),
        };
        assert_eq!(found, expected);
    }
}

#[test]
fn plan_errors_for_undefined_names_and_loops() {
    let f = func("f", vec![], TypeAnnotation::Int, vec![Statement::Return { value: Some(name("y", TypeAnnotation::Int)) }]);
    assert_eq!(compile(vec![f]).unwrap_err(), CodegenError::UndefinedVariable("y".into()));
    let g = func("g", vec![], TypeAnnotation::Int, vec![Statement::Return { value: Some(call("nope", vec![], TypeAnnotation::Int)) }]);
    assert_eq!(compile(vec![g]).unwrap_err(), CodegenError::UndefinedFunction("nope".into()));
    let h = func("h", vec![], TypeAnnotation::NoneType, vec![Statement::Break]);
    assert_eq!(compile(vec![h]).unwrap_err(), CodegenError::LlvmError("break outside loop".into()));
    let k = func("k", vec![], TypeAnnotation::NoneType, vec![Statement::AugAssign { target: "z".into(), op: BinaryOp::Add, value: lit(1) }]);
    assert_eq!(compile(vec![k]).unwrap_err(), CodegenError::UndefinedVariable("z".into()));
    let s = func("s", vec![], TypeAnnotation::Str, vec![]);
    assert_eq!(compile(vec![s]).unwrap_err(), CodegenError::UnsupportedType("Str".into()));
    let v = func("v", vec![param("p", TypeAnnotation::NoneType)], TypeAnnotation::Int, vec![]);
    assert_eq!(compile(vec![v]).unwrap_err(), CodegenError::UnsupportedType("void param type for p".into()));
}

#[test]
fn plan_calls_between_functions() {
    let i = |n: &str| name(n, TypeAnnotation::Int);
    let discount = func(
        "apply_discount",
        vec![param("price", TypeAnnotation::Int)],
        TypeAnnotation::Int,
        vec![Statement::Return { value: Some(bin(BinaryOp::FloorDiv, bin(BinaryOp::Mul, i("price"), lit(90), TypeAnnotation::Int), lit(100), TypeAnnotation::Int)) }],
    );
    let price = func(
        "price",
        vec![param("base", TypeAnnotation::Int)],
        TypeAnnotation::Int,
        vec![Statement::Return { value: Some(call("apply_discount", vec![i("base")], TypeAnnotation::Int)) }],
    );
    let c = compiled(vec![discount, price]);
    match &c.functions()[1].body[0] {
        Stmt::Return(Some(Value::Call { callee, args, ret })) => {
            assert_eq!(callee, "apply_discount");
            assert_eq!(args.len(), 1);
            assert_eq!(*ret, LlvmType::I64);
        },
        other => panic!("unexpected {other:?}"),
    }
}

#[test]
fn statements_after_a_return_still_fall_through() {
    let f = func("f", vec![], TypeAnnotation::Int, vec![
        Statement::Return { value: Some(lit(1)) },
        Statement::Assign { target: "x".into(), annotation: None, value: lit(2) },
        Statement::Pass,
    ]);
    let c = compiled(vec![f]);
    assert_eq!(c.functions()[0].ending, Ending::ReturnZero(LlvmType::I64));
    let g = func("g", vec![], TypeAnnotation::NoneType, vec![Statement::Pass]);
    let c = compiled(vec![g]);
    assert_eq!(c.functions()[0].ending, Ending::ReturnVoid);
}

#[test]
fn emit_statement_skips_expressions_and_records_locals() {
    let mut ctx = CodegenContext::new();
    let s = emit_statement(&mut ctx, &Statement::Expr(call("anything", vec![], TypeAnnotation::Any))).unwrap();
    assert_eq!(s, Stmt::Skip);
    let a = emit_statement(&mut ctx, &Statement::Assign { target: "x".into(), annotation: None, value: Expression::BoolLiteral(true) }).unwrap();
    assert_eq!(a, Stmt::Assign { target: "x".into(), value: Value::ConstBool(true), new_slot: Some(LlvmType::I1) });
    assert!(ctx.get_local("x"));
    let again = emit_statement(&mut ctx, &Statement::Assign { target: "x".into(), annotation: None, value: Expression::BoolLiteral(false) }).unwrap();
    assert_eq!(again, Stmt::Assign { target: "x".into(), value: Value::ConstBool(false), new_slot: None });
}

#[test]
fn plan_stops_where_the_instruction_builder_would_panic() {
    let ret = |e: Expression| vec![Statement::Return { value: Some(e) }];
    let int_plus_str = func("a", vec![], TypeAnnotation::Int, ret(bin(BinaryOp::Add, lit(1), Expression::StringLiteral("x".into()), TypeAnnotation::Int)));
    assert_eq!(lowering(vec![int_plus_str]).err(), Some(CodegenStop::BuilderPanic));
    let not_float = Expression::UnaryOp { op: UnaryOp::Not, operand: Box::new(Expression::FloatLiteral("1.5".into())), ty: TypeAnnotation::Bool };
    assert_eq!(lowering(vec![func("b", vec![], TypeAnnotation::Bool, ret(not_float))]).err(), Some(CodegenStop::BuilderPanic));
    let neg_str = Expression::UnaryOp { op: UnaryOp::Neg, operand: Box::new(Expression::StringLiteral("s".into())), ty: TypeAnnotation::Int };
    assert_eq!(lowering(vec![func("c", vec![], TypeAnnotation::Int, ret(neg_str))]).err(), Some(CodegenStop::BuilderPanic));
    let void = func("v", vec![], TypeAnnotation::NoneType, vec![]);
    let uses_void = func("d", vec![], TypeAnnotation::Int, ret(call("v", vec![], TypeAnnotation::Int)));
    assert_eq!(lowering(vec![void, uses_void]).err(), Some(CodegenStop::BuilderPanic));
    let float_stop = Statement::For {
        target: "i".into(),
        iter: call("range", vec![Expression::FloatLiteral("2.5".into())], TypeAnnotation::Any),
        body: vec![Statement::Pass],
    };
    assert_eq!(lowering(vec![func("e", vec![], TypeAnnotation::NoneType, vec![float_stop])]).err(), Some(CodegenStop::BuilderPanic));
}

#[test]
fn plan_failure_before_a_builder_panic_is_reported() {
    let ret = |e: Expression| vec![Statement::Return { value: Some(e) }];
    let first_fails = func("a", vec![], TypeAnnotation::Int, vec![Statement::Break]);
    let then_panics = func("b", vec![], TypeAnnotation::Int, ret(bin(BinaryOp::Sub, lit(1), Expression::StringLiteral("x".into()), TypeAnnotation::Int)));
    assert_eq!(
        lowering(vec![first_fails, then_panics]).err(),
        Some(CodegenStop::Error(CodegenError::LlvmError("break outside loop".into())))
    );
}

#[test]
fn plan_passes_bool_json_values_as_text() {
    let f = func(
        "flag",
        vec![param("on", TypeAnnotation::Bool), param("n", TypeAnnotation::Float)],
        dict_any(),
        vec![Statement::Return {
            value: Some(Expression::Dict {
                keys: vec![Expression::StringLiteral("on".into()), Expression::StringLiteral("n".into())],
                values: vec![name("on", TypeAnnotation::Bool), name("n", TypeAnnotation::Float)],
                ty: dict_any(),
            }),
        }],
    );
    let c = compiled(vec![f]);
    match &c.functions()[0].ending {
        Ending::Json { plan: JsonPlan::Dynamic { args, .. }, passes } => {
            assert_eq!(args.len(), 2);
            assert_eq!(
                passes,
                &vec![
                    ArgPass::SelectText { if_true: "true".into(), if_false: "false".into() },
                    ArgPass::Load(LlvmType::F64),
                ]
            );
        },
        other => panic!("unexpected ending {other:?}"),
    }
}

#[test]
fn plan_list_subscript_checks_both_bounds() {
    let mut ctx = CodegenContext::new();
    ctx.set_local("xs");
    ctx.set_local("i");
    let list_ty = TypeAnnotation::List(Box::new(TypeAnnotation::Int));
    let (v, k) = emit_list_subscript(&ctx, &name("xs", list_ty), &name("i", TypeAnnotation::Int), &TypeAnnotation::Int).unwrap();
    assert_eq!(k, LlvmType::I64);
    match v {
        Value::ListIndex { checks, elem, .. } => {
            assert_eq!(elem, LlvmType::I64);
            assert_eq!(checks, vec![IndexCheck::NonNegative, IndexCheck::BelowLength]);
        },
        other => panic!("unexpected value {other:?}"),
    }
}

#[test]
fn unsupported_expressions_are_quoted_as_the_front_end_prints_them() {
    let ctx = CodegenContext::new();
    let attr = Expression::Attribute {
        value: Box::new(Expression::FloatLiteral("2".into())),
        attr: "real".into(),
        ty: TypeAnnotation::SetOf(Box::new(TypeAnnotation::NoneType)),
    };
    assert_eq!(
        emit_expression(&ctx, &attr).unwrap_err(),
        CodegenStop::Error(CodegenError::UnsupportedExpression(
            "Attribute { value: FloatLiteral(2.0), attr: \"real\", ty: Set(None) }".into()
        ))
    );
    let small = Expression::Await { value: Box::new(Expression::FloatLiteral("-0.0000125".into())), ty: TypeAnnotation::Any };
    assert_eq!(
        emit_expression(&ctx, &small).unwrap_err(),
        CodegenStop::Error(CodegenError::UnsupportedExpression(
            "Await { value: FloatLiteral(-1.25e-5), ty: Any }".into()
        ))
    );
    let big = Expression::Subscript {
        value: Box::new(Expression::FloatLiteral("12300000000000000000".into())),
        index: Box::new(Expression::BoolLiteral(true)),
        ty: TypeAnnotation::Any,
    };
    assert_eq!(
        emit_expression(&ctx, &big).unwrap_err(),
        CodegenStop::Error(CodegenError::UnsupportedExpression(
            "Subscript { value: FloatLiteral(1.23e19), index: BoolLiteral(true), ty: Any }".into()
        ))
    );
    let call = Expression::ListComp {
        element: Box::new(Expression::Call {
            func: Box::new(Expression::Name { id: "f".into(), ty: TypeAnnotation::Any }),
            args: vec![Expression::IntLiteral(-3), Expression::NoneLiteral],
            keywords: vec![celer::hir::Keyword { name: Some("k".into()), value: Expression::FloatLiteral("1.5".into()) }],
            ty: TypeAnnotation::Any,
        }),
        generators: vec![],
        ty: TypeAnnotation::Any,
    };
    assert_eq!(
        emit_expression(&ctx, &call).unwrap_err(),
        CodegenStop::Error(CodegenError::UnsupportedExpression(
            "ListComp { element: Call { func: Name { id: \"f\", ty: Any }, args: [IntLiteral(-3), NoneLiteral], keywords: [Keyword { name: Some(\"k\"), value: FloatLiteral(1.5) }], ty: Any }, generators: [], ty: Any }".into()
        ))
    );
}
