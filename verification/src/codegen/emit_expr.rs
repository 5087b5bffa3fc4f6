//! Lowering of expressions.

use vstd::prelude::*;

use super::collection::{emit_list_len, emit_tuple_len};
use super::context::{lookup_fn, CodegenContext, EnvView};
use super::debug_text::{debug_expression, expression_debug, render_type, type_debug, wrap};
use super::error::{fails_as, reports, stops_as, then, CodegenError, CodegenFailure, CodegenStop, Outcome};
use super::plan::{
    BinaryLowering, BoolConversion, BuiltinLowering, FloatOp, FloatPredicate, IntOp, IntPredicate,
    UnaryLowering, Value,
};
use super::types::{lowered_type, resolve_type, type_error, LlvmType};
use crate::hir::{BinaryOp, Expression, TypeAnnotation, UnaryOp};
use crate::text::{int_text, str_equal};

verus! {

broadcast use vstd::string::group_string_axioms;

/// An integer machine type of any width.
pub open spec fn is_int(k: LlvmType) -> bool {
    k is I64 || k is I1
}

/// The failure of a type that `resolve_type` rejects.
pub open spec fn type_fail(ty: TypeAnnotation) -> CodegenFailure {
    if ty is Unknown {
        CodegenFailure::Unresolved
    } else {
        CodegenFailure::Type(type_debug(ty))
    }
}

/// The integer instruction of an arithmetic or bitwise operator.
pub open spec fn int_op(op: BinaryOp) -> IntOp {
    match op {
        BinaryOp::Add => IntOp::Add,
        BinaryOp::Sub => IntOp::Sub,
        BinaryOp::Mul => IntOp::Mul,
        BinaryOp::FloorDiv => IntOp::SignedDiv,
        BinaryOp::Mod => IntOp::SignedRem,
        BinaryOp::And => IntOp::And,
        BinaryOp::BitAnd => IntOp::And,
        BinaryOp::Or => IntOp::Or,
        BinaryOp::BitOr => IntOp::Or,
        BinaryOp::BitXor => IntOp::Xor,
        BinaryOp::LShift => IntOp::Shl,
        _ => IntOp::ArithmeticShr,
    }
}

/// The float instruction of an arithmetic operator; floor division divides.
pub open spec fn float_op(op: BinaryOp) -> FloatOp {
    match op {
        BinaryOp::Add => FloatOp::Add,
        BinaryOp::Sub => FloatOp::Sub,
        BinaryOp::Mul => FloatOp::Mul,
        BinaryOp::FloorDiv => FloatOp::Div,
        _ => FloatOp::Rem,
    }
}

/// The signed predicate of a comparison operator.
pub open spec fn int_pred(op: BinaryOp) -> IntPredicate {
    match op {
        BinaryOp::Eq => IntPredicate::Equal,
        BinaryOp::NotEq => IntPredicate::NotEqual,
        BinaryOp::Lt => IntPredicate::SignedLess,
        BinaryOp::LtEq => IntPredicate::SignedLessEqual,
        BinaryOp::Gt => IntPredicate::SignedGreater,
        _ => IntPredicate::SignedGreaterEqual,
    }
}

/// The ordered float predicate of a comparison operator.
pub open spec fn float_pred(op: BinaryOp) -> FloatPredicate {
    match op {
        BinaryOp::Eq => FloatPredicate::OrderedEqual,
        BinaryOp::NotEq => FloatPredicate::OrderedNotEqual,
        BinaryOp::Lt => FloatPredicate::OrderedLess,
        BinaryOp::LtEq => FloatPredicate::OrderedLessEqual,
        BinaryOp::Gt => FloatPredicate::OrderedGreater,
        _ => FloatPredicate::OrderedGreaterEqual,
    }
}

/// How `op` is lowered when its left operand has machine type `lk` and the expression is
/// annotated `ty`.
pub open spec fn binary_choice(op: BinaryOp, lk: LlvmType, ty: TypeAnnotation) -> BinaryLowering {
    match op {
        BinaryOp::Add | BinaryOp::Sub | BinaryOp::Mul | BinaryOp::Mod | BinaryOp::FloorDiv => if lk is Ptr
            && op is Add {
            BinaryLowering::StrConcat
        } else if is_int(lk) {
            BinaryLowering::Int(int_op(op))
        } else {
            BinaryLowering::Float(float_op(op))
        },
        BinaryOp::Div => if is_int(lk) {
            BinaryLowering::IntTrueDiv
        } else {
            BinaryLowering::Float(FloatOp::Div)
        },
        BinaryOp::Pow => if is_int(lk) {
            BinaryLowering::IntPow { to_int: ty is Int }
        } else {
            BinaryLowering::FloatPow
        },
        BinaryOp::Eq | BinaryOp::NotEq | BinaryOp::Lt | BinaryOp::LtEq | BinaryOp::Gt
        | BinaryOp::GtEq => if lk is Ptr && (op is Eq || op is NotEq) {
            BinaryLowering::StrCompare { equal: op is Eq }
        } else if is_int(lk) {
            BinaryLowering::IntCompare(int_pred(op))
        } else {
            BinaryLowering::FloatCompare(float_pred(op))
        },
        _ => BinaryLowering::Int(int_op(op)),
    }
}

/// The instruction builder panics on this lowering with these operand types: an integer
/// instruction needs integer operands, a float instruction float operands.
pub open spec fn binary_panics(b: BinaryLowering, lk: LlvmType, rk: LlvmType) -> bool {
    match b {
        BinaryLowering::Int(_) => !(is_int(lk) && is_int(rk)),
        BinaryLowering::IntTrueDiv | BinaryLowering::IntPow { .. } | BinaryLowering::IntCompare(_) => !is_int(rk),
        BinaryLowering::Float(_) | BinaryLowering::FloatPow | BinaryLowering::FloatCompare(_) => !(lk is F64
            && rk is F64),
        _ => false,
    }
}

/// The machine type of the result of a binary lowering.
pub open spec fn binary_kind(b: BinaryLowering, lk: LlvmType) -> LlvmType {
    match b {
        BinaryLowering::Int(_) => lk,
        BinaryLowering::IntPow { to_int } => if to_int { LlvmType::I64 } else { LlvmType::F64 },
        BinaryLowering::IntCompare(_) | BinaryLowering::FloatCompare(_) | BinaryLowering::StrCompare { .. } => LlvmType::I1,
        BinaryLowering::StrConcat => LlvmType::Ptr,
        _ => LlvmType::F64,
    }
}

/// How a unary operator is lowered on an operand of type `k`; `None` for `+`, which passes the
/// operand through.
pub open spec fn unary_choice(op: UnaryOp, k: LlvmType) -> Option<UnaryLowering> {
    match op {
        UnaryOp::Neg => Option::Some(if is_int(k) { UnaryLowering::IntNeg } else { UnaryLowering::FloatNeg }),
        UnaryOp::Pos => Option::None,
        _ => Option::Some(UnaryLowering::Not),
    }
}

/// The instruction builder panics on this unary operator with this operand type.
pub open spec fn unary_panics(op: UnaryOp, k: LlvmType) -> bool {
    match op {
        UnaryOp::Neg => k is Ptr,
        UnaryOp::Pos => false,
        _ => !is_int(k),
    }
}

/// The names of the built-in functions: `len`, `str`, `int`, `float`, `bool`.
pub open spec fn is_builtin(name: Seq<char>) -> bool {
    name == "len"@ || name == "str"@ || name == "int"@ || name == "float"@ || name == "bool"@
}

/// How `str`, `int`, `float` or `bool` is lowered on an argument of type `k`.
pub open spec fn builtin_choice(name: Seq<char>, k: LlvmType) -> BuiltinLowering {
    if name == "str"@ {
        if k is F64 { BuiltinLowering::StrFromFloat } else if k is Ptr { BuiltinLowering::StrKeep } else { BuiltinLowering::StrFromInt }
    } else if name == "int"@ {
        if is_int(k) { BuiltinLowering::IntKeep } else if k is F64 { BuiltinLowering::IntFromFloat } else { BuiltinLowering::IntFromStr }
    } else if name == "float"@ {
        if k is F64 { BuiltinLowering::FloatKeep } else if is_int(k) { BuiltinLowering::FloatFromInt } else { BuiltinLowering::FloatFromStr }
    } else {
        if k is Ptr { BuiltinLowering::BoolFromStr } else if k is I1 { BuiltinLowering::BoolKeep } else if k is I64 {
            BuiltinLowering::BoolFromInt
        } else {
            BuiltinLowering::BoolFromFloat
        }
    }
}

/// The machine type of a built-in's result.
pub open spec fn builtin_kind(b: BuiltinLowering, k: LlvmType) -> LlvmType {
    match b {
        BuiltinLowering::StrLen | BuiltinLowering::ListLen | BuiltinLowering::IntFromFloat
        | BuiltinLowering::IntFromStr => LlvmType::I64,
        BuiltinLowering::StrFromInt | BuiltinLowering::StrFromFloat | BuiltinLowering::StrKeep => LlvmType::Ptr,
        BuiltinLowering::IntKeep => k,
        BuiltinLowering::FloatKeep | BuiltinLowering::FloatFromInt | BuiltinLowering::FloatFromStr => LlvmType::F64,
        _ => LlvmType::I1,
    }
}

/// The error text for a built-in called with the wrong number of arguments.
pub open spec fn arity_text(name: Seq<char>, n: int) -> Seq<char> {
    "builtin "@ + name + "() expects exactly 1 argument, got "@ + int_text(n)
}

/// The type the annotation resolves to, when it has one.
pub open spec fn resolved(ty: TypeAnnotation) -> LlvmType {
    match lowered_type(ty) {
        Ok(Some(t)) => t,
        _ => LlvmType::Ptr,
    }
}

/// The outcome of resolving the element types `ts[0..n]` of a tuple.
pub open spec fn field_types_outcome(ts: Seq<TypeAnnotation>, n: int) -> Outcome
    decreases n,
{
    if n <= 0 {
        Outcome::Done
    } else {
        then(
            field_types_outcome(ts, n - 1),
            match lowered_type(ts[n - 1]) {
                Err(_) => Outcome::Fails(type_fail(ts[n - 1])),
                Ok(None) => Outcome::Fails(CodegenFailure::Type(
                    "cannot resolve tuple element type: "@ + type_debug(ts[n - 1]),
                )),
                Ok(Some(_)) => Outcome::Done,
            },
        )
    }
}

/// The outcome of lowering `es[0..n]` in order; with `limit`, lowering element `i >= limit`
/// fails after the element itself is lowered (a tuple has no field for it).
pub open spec fn exprs_outcome(es: Seq<Expression>, n: int, limit: Option<int>, env: EnvView) -> Outcome
    decreases es, n,
{
    if n <= 0 || n > es.len() {
        Outcome::Done
    } else {
        then(
            exprs_outcome(es, n - 1, limit, env),
            then(
                expr_outcome(es[n - 1], env),
                match limit {
                    Option::Some(l) => if n - 1 >= l {
                        Outcome::Fails(CodegenFailure::Llvm("GEP index out of range"@))
                    } else {
                        Outcome::Done
                    },
                    Option::None => Outcome::Done,
                },
            ),
        )
    }
}

/// The outcome of lowering an expression: success, the first failure, or a panic.
pub open spec fn expr_outcome(e: Expression, env: EnvView) -> Outcome
    decreases e, 0int,
{
    match e {
        Expression::IntLiteral(_) | Expression::FloatLiteral(_) | Expression::StringLiteral(_)
        | Expression::BoolLiteral(_) | Expression::NoneLiteral => Outcome::Done,
        Expression::Name { id, ty } => if !env.locals.contains(id@) {
            Outcome::Fails(CodegenFailure::Variable(id@))
        } else {
            match lowered_type(ty) {
                Err(_) => Outcome::Fails(type_fail(ty)),
                Ok(None) => Outcome::Fails(CodegenFailure::Type("cannot load variable of type "@ + type_debug(ty))),
                Ok(Some(_)) => Outcome::Done,
            }
        },
        Expression::BinaryOp { op, left, right, ty } => then(
            expr_outcome(*left, env),
            then(
                expr_outcome(*right, env),
                if binary_panics(binary_choice(op, expr_kind(*left, env), ty), expr_kind(*left, env), expr_kind(*right, env)) {
                    Outcome::Panics
                } else {
                    Outcome::Done
                },
            ),
        ),
        Expression::UnaryOp { op, operand, .. } => then(
            expr_outcome(*operand, env),
            if unary_panics(op, expr_kind(*operand, env)) { Outcome::Panics } else { Outcome::Done },
        ),
        Expression::Call { func, args, .. } => match *func {
            Expression::Name { id, .. } => if is_builtin(id@) {
                if args@.len() != 1 {
                    Outcome::Fails(CodegenFailure::Expr(arity_text(id@, args@.len() as int)))
                } else if id@ == "len"@ {
                    match args@[0].type_of() {
                        TypeAnnotation::List(_) => then(
                            expr_outcome(args@[0], env),
                            if expr_kind(args@[0], env) is Ptr { Outcome::Done } else { Outcome::Panics },
                        ),
                        TypeAnnotation::Tuple(_) => Outcome::Done,
                        _ => expr_outcome(args@[0], env),
                    }
                } else {
                    expr_outcome(args@[0], env)
                }
            } else {
                match lookup_fn(env.functions, id@) {
                    Option::None => Outcome::Fails(CodegenFailure::Function(id@)),
                    Option::Some(ret) => then(
                        exprs_outcome(args@, args@.len() as int, Option::None, env),
                        if ret is None { Outcome::Panics } else { Outcome::Done },
                    ),
                }
            },
            _ => Outcome::Fails(CodegenFailure::Expr("only named function calls supported"@)),
        },
        Expression::List { elements, ty } => match ty {
            TypeAnnotation::List(inner) => match lowered_type(*inner) {
                Err(_) => Outcome::Fails(type_fail(*inner)),
                Ok(None) => Outcome::Fails(CodegenFailure::Type(
                    "cannot resolve list element type: "@ + type_debug(*inner),
                )),
                Ok(Some(_)) => exprs_outcome(elements@, elements@.len() as int, Option::None, env),
            },
            _ => Outcome::Fails(CodegenFailure::Type("emit_list called with non-list type"@)),
        },
        Expression::Tuple { elements, ty } => match ty {
            TypeAnnotation::Tuple(ts) => then(
                field_types_outcome(ts@, ts@.len() as int),
                exprs_outcome(elements@, elements@.len() as int, Option::Some(ts@.len() as int), env),
            ),
            _ => Outcome::Fails(CodegenFailure::Type("emit_tuple called with non-tuple type"@)),
        },
        _ => Outcome::Fails(CodegenFailure::Expr(expression_debug(e))),
    }
}

/// The machine type of a lowered expression.
pub open spec fn expr_kind(e: Expression, env: EnvView) -> LlvmType
    decreases e,
{
    match e {
        Expression::IntLiteral(_) => LlvmType::I64,
        Expression::FloatLiteral(_) => LlvmType::F64,
        Expression::BoolLiteral(_) => LlvmType::I1,
        Expression::Name { ty, .. } => resolved(ty),
        Expression::BinaryOp { op, left, ty, .. } => binary_kind(
            binary_choice(op, expr_kind(*left, env), ty),
            expr_kind(*left, env),
        ),
        Expression::UnaryOp { op, operand, .. } => match unary_choice(op, expr_kind(*operand, env)) {
            Option::Some(UnaryLowering::FloatNeg) => LlvmType::F64,
            _ => expr_kind(*operand, env),
        },
        Expression::Call { func, args, .. } => {
            let id = func->Name_id@;
            if is_builtin(id) {
                if id == "len"@ {
                    LlvmType::I64
                } else if args@.len() > 0 {
                    builtin_kind(builtin_choice(id, expr_kind(args@[0], env)), expr_kind(args@[0], env))
                } else {
                    LlvmType::I64
                }
            } else {
                match lookup_fn(env.functions, id) {
                    Option::Some(Option::Some(t)) => t,
                    _ => LlvmType::Ptr,
                }
            }
        },
        _ => LlvmType::Ptr,
    }
}

/// `vs` lower `es`, element by element.
pub open spec fn lower_all(vs: Seq<Value>, es: Seq<Expression>, env: EnvView) -> bool
    decreases es, 1int,
{
    vs.len() == es.len() && forall|i: int| 0 <= i < es.len() ==> lowers_to(#[trigger] vs[i], es[i], env)
}

/// `v` is the lowering of `e` in `env`.
pub open spec fn lowers_to(v: Value, e: Expression, env: EnvView) -> bool
    decreases e, 0int,
{
    match e {
        Expression::IntLiteral(n) => v == Value::ConstInt(n),
        Expression::FloatLiteral(t) => v == Value::ConstFloat(t),
        Expression::StringLiteral(t) => v == Value::GlobalString(t),
        Expression::BoolLiteral(b) => v == Value::ConstBool(b),
        Expression::NoneLiteral => v == Value::NullPtr,
        Expression::Name { id, ty } => v == Value::Load { name: id, ty: resolved(ty) },
        Expression::BinaryOp { op, left, right, ty } => v matches Value::Binary { op: b, lhs, rhs } && b
            == binary_choice(op, expr_kind(*left, env), ty) && lowers_to(*lhs, *left, env) && lowers_to(
            *rhs,
            *right,
            env,
        ),
        Expression::UnaryOp { op, operand, .. } => match unary_choice(op, expr_kind(*operand, env)) {
            Option::None => lowers_to(v, *operand, env),
            Option::Some(u) => v matches Value::Unary { op: u2, operand: x } && u2 == u && lowers_to(
                *x,
                *operand,
                env,
            ),
        },
        Expression::Call { func, args, .. } => {
            let id = func->Name_id;
            if is_builtin(id@) {
                if args@.len() == 0 {
                    false
                } else if id@ == "len"@ {
                    match args@[0].type_of() {
                        TypeAnnotation::List(_) => v matches Value::Builtin { op: BuiltinLowering::ListLen, arg }
                            && lowers_to(*arg, args@[0], env),
                        TypeAnnotation::Tuple(ts) => v == Value::TupleLen(ts@.len() as usize),
                        _ => v matches Value::Builtin { op: BuiltinLowering::StrLen, arg } && lowers_to(
                            *arg,
                            args@[0],
                            env,
                        ),
                    }
                } else {
                    v matches Value::Builtin { op, arg } && op == builtin_choice(id@, expr_kind(args@[0], env))
                        && lowers_to(*arg, args@[0], env)
                }
            } else {
                v matches Value::Call { callee, args: vs, ret } && callee == id && lookup_fn(env.functions, id@)
                    == Option::Some(Option::Some(ret)) && lower_all(vs@, args@, env)
            }
        },
        Expression::List { elements, ty } => v matches Value::ListLiteral { elem, elements: vs } && elem
            == resolved(*ty->List_0) && lower_all(vs@, elements@, env),
        Expression::Tuple { elements, ty } => v matches Value::TupleLiteral { fields, elements: vs }
            && fields@.len() == ty->Tuple_0@.len() && (forall|i: int|
            0 <= i < fields@.len() ==> #[trigger] fields@[i] == resolved(ty->Tuple_0@[i])) && lower_all(
            vs@,
            elements@,
            env,
        ),
        _ => false,
    }
}

/// `r` is what lowering `e` in `env` answers.
pub open spec fn lowered_as(r: Result<(Value, LlvmType), CodegenStop>, e: Expression, env: EnvView) -> bool {
    match expr_outcome(e, env) {
        Outcome::Done => r matches Ok((v, k)) && lowers_to(v, e, env) && k == expr_kind(e, env),
        o => stops_as(r, o),
    }
}

/// The quotient of `a` by `b` rounded toward zero, as the signed division instruction computes
/// it.
pub open spec fn trunc_quotient(a: int, b: int) -> int {
    let q = abs(a) / abs(b);
    if (a >= 0) == (b >= 0) {
        q
    } else {
        -q
    }
}

/// `|x|`.
pub open spec fn abs(x: int) -> int {
    if x < 0 {
        -x
    } else {
        x
    }
}

/// What an integer instruction computes from `a` and `b`, for the arithmetic instructions:
/// signed division rounds toward zero, and the signed remainder is what that division leaves.
pub open spec fn int_op_value(op: IntOp, a: int, b: int) -> Option<int> {
    match op {
        IntOp::Add => Option::Some(a + b),
        IntOp::Sub => Option::Some(a - b),
        IntOp::Mul => Option::Some(a * b),
        IntOp::SignedDiv => Option::Some(trunc_quotient(a, b)),
        IntOp::SignedRem => Option::Some(a - trunc_quotient(a, b) * b),
        _ => Option::None,
    }
}

/// On integer operands, `//` and `%` lower to a quotient and a remainder that fit together:
/// `a == q * b + r`, with `r` smaller than `b` in size and of the sign of `a` (or zero).
pub proof fn law_int_floor_div_and_mod(a: int, b: int, lk: LlvmType, ty_div: TypeAnnotation, ty_mod: TypeAnnotation)
    requires
        is_int(lk),
        b != 0,
    ensures
        binary_choice(BinaryOp::FloorDiv, lk, ty_div) matches BinaryLowering::Int(qop) && binary_choice(
            BinaryOp::Mod,
            lk,
            ty_mod,
        ) matches BinaryLowering::Int(rop) && int_op_value(qop, a, b) matches Option::Some(q) && int_op_value(
            rop,
            a,
            b,
        ) matches Option::Some(r) && a == q * b + r && abs(r) < abs(b) && (r == 0 || (r > 0) == (a > 0)),
{
    let aa = abs(a);
    let bb = abs(b);
    let q0 = aa / bb;
    let m = aa % bb;
    vstd::arithmetic::div_mod::lemma_fundamental_div_mod(aa, bb);
    assert(0 <= m < bb);
    let q = trunc_quotient(a, b);
    let r = a - q * b;
    if a >= 0 && b > 0 {
        assert(r == m) by (nonlinear_arith)
            requires
                r == a - q * b,
                q == q0,
                aa == a,
                bb == b,
                aa == bb * q0 + m,
        ;
    } else if a >= 0 && b < 0 {
        assert(r == m) by (nonlinear_arith)
            requires
                r == a - q * b,
                q == -q0,
                aa == a,
                bb == -b,
                aa == bb * q0 + m,
        ;
    } else if a < 0 && b > 0 {
        assert(r == -m) by (nonlinear_arith)
            requires
                r == a - q * b,
                q == -q0,
                aa == -a,
                bb == b,
                aa == bb * q0 + m,
        ;
    } else {
        assert(r == -m) by (nonlinear_arith)
            requires
                r == a - q * b,
                q == q0,
                aa == -a,
                bb == -b,
                aa == bb * q0 + m,
        ;
    }
}

/// Whether a signed integer comparison holds of `a` and `b`.
pub open spec fn int_pred_holds(p: IntPredicate, a: int, b: int) -> bool {
    match p {
        IntPredicate::Equal => a == b,
        IntPredicate::NotEqual => a != b,
        IntPredicate::SignedLess => a < b,
        IntPredicate::SignedLessEqual => a <= b,
        IntPredicate::SignedGreater => a > b,
        IntPredicate::SignedGreaterEqual => a >= b,
    }
}

/// On integer operands, `+`, `-` and `*` lower to instructions that add, subtract and
/// multiply, and each comparison to the signed test of the same relation.
pub proof fn law_int_arithmetic_and_comparisons(a: int, b: int, lk: LlvmType, ty: TypeAnnotation)
    requires
        is_int(lk),
    ensures
        binary_choice(BinaryOp::Add, lk, ty) matches BinaryLowering::Int(o) && int_op_value(o, a, b)
            == Option::Some(a + b),
        binary_choice(BinaryOp::Sub, lk, ty) matches BinaryLowering::Int(o) && int_op_value(o, a, b)
            == Option::Some(a - b),
        binary_choice(BinaryOp::Mul, lk, ty) matches BinaryLowering::Int(o) && int_op_value(o, a, b)
            == Option::Some(a * b),
        binary_choice(BinaryOp::Eq, lk, ty) matches BinaryLowering::IntCompare(p) && int_pred_holds(p, a, b)
            == (a == b),
        binary_choice(BinaryOp::NotEq, lk, ty) matches BinaryLowering::IntCompare(p) && int_pred_holds(p, a, b)
            == (a != b),
        binary_choice(BinaryOp::Lt, lk, ty) matches BinaryLowering::IntCompare(p) && int_pred_holds(p, a, b)
            == (a < b),
        binary_choice(BinaryOp::LtEq, lk, ty) matches BinaryLowering::IntCompare(p) && int_pred_holds(p, a, b)
            == (a <= b),
        binary_choice(BinaryOp::Gt, lk, ty) matches BinaryLowering::IntCompare(p) && int_pred_holds(p, a, b)
            == (a > b),
        binary_choice(BinaryOp::GtEq, lk, ty) matches BinaryLowering::IntCompare(p) && int_pred_holds(p, a, b)
            == (a >= b),
{
}

/// Chooses how a binary operator is lowered.
pub(crate) fn choose_binary(op: BinaryOp, lk: LlvmType, ty: &TypeAnnotation) -> (b: BinaryLowering)
    ensures
        b == binary_choice(op, lk, *ty),
{
    let lk_int = matches!(lk, LlvmType::I64 | LlvmType::I1);
    let lk_ptr = matches!(lk, LlvmType::Ptr);
    match op {
        BinaryOp::Add | BinaryOp::Sub | BinaryOp::Mul | BinaryOp::Mod | BinaryOp::FloorDiv => {
            if lk_ptr && matches!(op, BinaryOp::Add) {
                BinaryLowering::StrConcat
            } else if lk_int {
                BinaryLowering::Int(
                    match op {
                        BinaryOp::Add => IntOp::Add,
                        BinaryOp::Sub => IntOp::Sub,
                        BinaryOp::Mul => IntOp::Mul,
                        BinaryOp::FloorDiv => IntOp::SignedDiv,
                        _ => IntOp::SignedRem,
                    },
                )
            } else {
                BinaryLowering::Float(
                    match op {
                        BinaryOp::Add => FloatOp::Add,
                        BinaryOp::Sub => FloatOp::Sub,
                        BinaryOp::Mul => FloatOp::Mul,
                        BinaryOp::FloorDiv => FloatOp::Div,
                        _ => FloatOp::Rem,
                    },
                )
            }
        },
        BinaryOp::Div => if lk_int {
            BinaryLowering::IntTrueDiv
        } else {
            BinaryLowering::Float(FloatOp::Div)
        },
        BinaryOp::Pow => if lk_int {
            BinaryLowering::IntPow { to_int: matches!(ty, TypeAnnotation::Int) }
        } else {
            BinaryLowering::FloatPow
        },
        BinaryOp::Eq | BinaryOp::NotEq | BinaryOp::Lt | BinaryOp::LtEq | BinaryOp::Gt | BinaryOp::GtEq => {
            if lk_ptr && matches!(op, BinaryOp::Eq | BinaryOp::NotEq) {
                BinaryLowering::StrCompare { equal: matches!(op, BinaryOp::Eq) }
            } else if lk_int {
                BinaryLowering::IntCompare(
                    match op {
                        BinaryOp::Eq => IntPredicate::Equal,
                        BinaryOp::NotEq => IntPredicate::NotEqual,
                        BinaryOp::Lt => IntPredicate::SignedLess,
                        BinaryOp::LtEq => IntPredicate::SignedLessEqual,
                        BinaryOp::Gt => IntPredicate::SignedGreater,
                        _ => IntPredicate::SignedGreaterEqual,
                    },
                )
            } else {
                BinaryLowering::FloatCompare(
                    match op {
                        BinaryOp::Eq => FloatPredicate::OrderedEqual,
                        BinaryOp::NotEq => FloatPredicate::OrderedNotEqual,
                        BinaryOp::Lt => FloatPredicate::OrderedLess,
                        BinaryOp::LtEq => FloatPredicate::OrderedLessEqual,
                        BinaryOp::Gt => FloatPredicate::OrderedGreater,
                        _ => FloatPredicate::OrderedGreaterEqual,
                    },
                )
            }
        },
        BinaryOp::And | BinaryOp::BitAnd => BinaryLowering::Int(IntOp::And),
        BinaryOp::Or | BinaryOp::BitOr => BinaryLowering::Int(IntOp::Or),
        BinaryOp::BitXor => BinaryLowering::Int(IntOp::Xor),
        BinaryOp::LShift => BinaryLowering::Int(IntOp::Shl),
        BinaryOp::RShift => BinaryLowering::Int(IntOp::ArithmeticShr),
    }
}

/// The machine type of a binary lowering's result.
fn kind_of_binary(b: BinaryLowering, lk: LlvmType) -> (k: LlvmType)
    ensures
        k == binary_kind(b, lk),
{
    match b {
        BinaryLowering::Int(_) => lk,
        BinaryLowering::IntPow { to_int } => if to_int { LlvmType::I64 } else { LlvmType::F64 },
        BinaryLowering::IntCompare(_) | BinaryLowering::FloatCompare(_) | BinaryLowering::StrCompare { .. } => LlvmType::I1,
        BinaryLowering::StrConcat => LlvmType::Ptr,
        _ => LlvmType::F64,
    }
}

/// Whether the instruction builder panics on a binary lowering with these operand types.
pub(crate) fn binary_builder_panics(b: BinaryLowering, lk: LlvmType, rk: LlvmType) -> (r: bool)
    ensures
        r == binary_panics(b, lk, rk),
{
    match b {
        BinaryLowering::Int(_) => !(int_kind(lk) && int_kind(rk)),
        BinaryLowering::IntTrueDiv | BinaryLowering::IntPow { .. } | BinaryLowering::IntCompare(_) => !int_kind(rk),
        BinaryLowering::Float(_) | BinaryLowering::FloatPow | BinaryLowering::FloatCompare(_) => !(matches!(
            lk,
            LlvmType::F64
        ) && matches!(rk, LlvmType::F64)),
        _ => false,
    }
}

/// Combines two lowered operands by a binary operator. The lowering is chosen by the
/// operator, the left operand's machine type and, for `**`, the annotated result type; the
/// builder panics where the operands do not fit the chosen instruction.
pub fn emit_binary_op_values(
    op: BinaryOp,
    lhs: Value,
    lk: LlvmType,
    rhs: Value,
    rk: LlvmType,
    result_ty: &TypeAnnotation,
) -> (r: Result<(Value, LlvmType), CodegenStop>)
    ensures
        binary_panics(binary_choice(op, lk, *result_ty), lk, rk) ==> r matches Err(CodegenStop::BuilderPanic),
        !binary_panics(binary_choice(op, lk, *result_ty), lk, rk) ==> (r matches Ok((v, k)) && (v matches Value::Binary {
            op: b,
            lhs: l,
            rhs: rr,
        } && b == binary_choice(op, lk, *result_ty) && *l == lhs && *rr == rhs) && k == binary_kind(
            binary_choice(op, lk, *result_ty),
            lk,
        )),
{
    let b = choose_binary(op, lk, result_ty);
    if binary_builder_panics(b, lk, rk) {
        return Err(CodegenStop::BuilderPanic);
    }
    let k = kind_of_binary(b, lk);
    Ok((Value::Binary { op: b, lhs: Box::new(lhs), rhs: Box::new(rhs) }, k))
}

/// Whether a machine type is an integer, of either width.
pub(crate) fn int_kind(k: LlvmType) -> (r: bool)
    ensures
        r == is_int(k),
{
    matches!(k, LlvmType::I64 | LlvmType::I1)
}

/// Converts a value of machine type `k` to a one-bit boolean for a branch.
pub fn ensure_bool(k: LlvmType) -> (r: Result<BoolConversion, CodegenError>)
    ensures
        match k {
            LlvmType::I1 => r == Ok::<BoolConversion, CodegenError>(BoolConversion::Keep),
            LlvmType::I64 => r == Ok::<BoolConversion, CodegenError>(BoolConversion::IntNonZero),
            LlvmType::F64 => r == Ok::<BoolConversion, CodegenError>(BoolConversion::FloatNonZero),
            LlvmType::Ptr => r matches Err(e) && reports(e, CodegenFailure::Type("cannot convert to bool"@)),
        },
{
    match k {
        LlvmType::I1 => Ok(BoolConversion::Keep),
        LlvmType::I64 => Ok(BoolConversion::IntNonZero),
        LlvmType::F64 => Ok(BoolConversion::FloatNonZero),
        LlvmType::Ptr => {
            proof { reveal_strlit("cannot convert to bool"); }
            Err(CodegenError::UnsupportedType("cannot convert to bool".to_string()))
        },
    }
}

/// Chooses the lowering of `str`, `int`, `float` or `bool` on an argument of type `k`.
fn choose_builtin(name: &str, k: LlvmType) -> (b: BuiltinLowering)
    ensures
        b == builtin_choice(name@, k),
{
    proof {
        reveal_strlit("str");
        reveal_strlit("int");
        reveal_strlit("float");
    }
    if str_equal(name, "str") {
        match k {
            LlvmType::F64 => BuiltinLowering::StrFromFloat,
            LlvmType::Ptr => BuiltinLowering::StrKeep,
            _ => BuiltinLowering::StrFromInt,
        }
    } else if str_equal(name, "int") {
        match k {
            LlvmType::I64 | LlvmType::I1 => BuiltinLowering::IntKeep,
            LlvmType::F64 => BuiltinLowering::IntFromFloat,
            LlvmType::Ptr => BuiltinLowering::IntFromStr,
        }
    } else if str_equal(name, "float") {
        match k {
            LlvmType::F64 => BuiltinLowering::FloatKeep,
            LlvmType::I64 | LlvmType::I1 => BuiltinLowering::FloatFromInt,
            LlvmType::Ptr => BuiltinLowering::FloatFromStr,
        }
    } else {
        match k {
            LlvmType::Ptr => BuiltinLowering::BoolFromStr,
            LlvmType::I1 => BuiltinLowering::BoolKeep,
            LlvmType::I64 => BuiltinLowering::BoolFromInt,
            LlvmType::F64 => BuiltinLowering::BoolFromFloat,
        }
    }
}

fn kind_of_builtin(b: BuiltinLowering, k: LlvmType) -> (r: LlvmType)
    ensures
        r == builtin_kind(b, k),
{
    match b {
        BuiltinLowering::StrLen | BuiltinLowering::ListLen | BuiltinLowering::IntFromFloat
        | BuiltinLowering::IntFromStr => LlvmType::I64,
        BuiltinLowering::StrFromInt | BuiltinLowering::StrFromFloat | BuiltinLowering::StrKeep => LlvmType::Ptr,
        BuiltinLowering::IntKeep => k,
        BuiltinLowering::FloatKeep | BuiltinLowering::FloatFromInt | BuiltinLowering::FloatFromStr => LlvmType::F64,
        _ => LlvmType::I1,
    }
}

/// Whether `name` is a built-in function.
fn builtin(name: &str) -> (r: bool)
    ensures
        r == is_builtin(name@),
{
    proof {
        reveal_strlit("len");
        reveal_strlit("str");
        reveal_strlit("int");
        reveal_strlit("float");
        reveal_strlit("bool");
    }
    str_equal(name, "len") || str_equal(name, "str") || str_equal(name, "int") || str_equal(name, "float")
        || str_equal(name, "bool")
}

/// Once lowering a prefix of a list stops succeeding, longer prefixes end the same way.
proof fn lemma_exprs_stop(es: Seq<Expression>, k: int, n: int, limit: Option<int>, env: EnvView)
    requires
        0 <= k <= n <= es.len(),
        !(exprs_outcome(es, k, limit, env) is Done),
    ensures
        exprs_outcome(es, n, limit, env) == exprs_outcome(es, k, limit, env),
    decreases n - k,
{
    if k < n {
        lemma_exprs_stop(es, k, n - 1, limit, env);
    }
}

/// When a list of expressions lowers, each of them lowers.
pub proof fn lemma_exprs_done(es: Seq<Expression>, n: int, limit: Option<int>, env: EnvView, i: int)
    requires
        0 <= i < n <= es.len(),
        exprs_outcome(es, n, limit, env) is Done,
    ensures
        expr_outcome(es[i], env) is Done,
    decreases n,
{
    if i < n - 1 {
        lemma_exprs_done(es, n - 1, limit, env, i);
    }
}

/// Once resolving a prefix of field types fails, longer prefixes fail the same way.
proof fn lemma_fields_stop(ts: Seq<TypeAnnotation>, k: int, n: int)
    requires
        0 <= k <= n,
        !(field_types_outcome(ts, k) is Done),
    ensures
        field_types_outcome(ts, n) == field_types_outcome(ts, k),
    decreases n - k,
{
    if k < n {
        lemma_fields_stop(ts, k, n - 1);
    }
}

/// Resolves the element types of a tuple.
pub(crate) fn resolve_fields(ts: &Vec<TypeAnnotation>) -> (r: Result<Vec<LlvmType>, CodegenError>)
    ensures
        match field_types_outcome(ts@, ts@.len() as int) {
            Outcome::Done => r matches Ok(fs) && fs@.len() == ts@.len() && forall|i: int|
                0 <= i < ts@.len() ==> #[trigger] fs@[i] == resolved(ts@[i]),
            o => fails_as(r, o),
        },
{
    let mut fs: Vec<LlvmType> = Vec::new();
    let mut i: usize = 0;
    while i < ts.len()
        invariant
            i <= ts@.len(),
            field_types_outcome(ts@, i as int) is Done,
            fs@.len() == i,
            forall|j: int| 0 <= j < i ==> #[trigger] fs@[j] == resolved(ts@[j]),
        decreases ts@.len() - i,
    {
        match resolve_type(&ts[i]) {
            Ok(Some(t)) => {
                fs.push(t);
            },
            Ok(None) => {
                proof { lemma_fields_stop(ts@, i + 1, ts@.len() as int); }
                let m = wrap("cannot resolve tuple element type: ", render_type(&ts[i]), "");
                proof { reveal_strlit(""); }
                assert(m@ == "cannot resolve tuple element type: "@ + type_debug(ts@[i as int]));
                return Err(CodegenError::UnsupportedType(m));
            },
            Err(e) => {
                proof { lemma_fields_stop(ts@, i + 1, ts@.len() as int); }
                return Err(e);
            },
        }
        i = i + 1;
    }
    Ok(fs)
}

/// Lowers a list of expressions in order; with `limit`, an element at an index of `limit` or
/// more fails after it is lowered, as a tuple without a field for it does.
pub(crate) fn emit_args(ctx: &CodegenContext, es: &Vec<Expression>, limit: Option<usize>) -> (r: Result<Vec<Value>, CodegenStop>)
    ensures
        match exprs_outcome(es@, es@.len() as int, limit_of(limit), ctx@) {
            Outcome::Done => r matches Ok(vs) && lower_all(vs@, es@, ctx@),
            o => stops_as(r, o),
        },
    decreases es, 1int,
{
    let mut vs: Vec<Value> = Vec::new();
    let mut i: usize = 0;
    while i < es.len()
        invariant
            i <= es@.len(),
            exprs_outcome(es@, i as int, limit_of(limit), ctx@) is Done,
            vs@.len() == i,
            forall|j: int| 0 <= j < i ==> lowers_to(#[trigger] vs@[j], es@[j], ctx@),
        decreases es@.len() - i,
    {
        assert(decreases_to!(es => es@[i as int]));
        proof {
            if !(exprs_outcome(es@, i + 1, limit_of(limit), ctx@) is Done) {
                lemma_exprs_stop(es@, i + 1, es@.len() as int, limit_of(limit), ctx@);
            }
        }
        match emit_expression(ctx, &es[i]) {
            Ok((v, _)) => {
                vs.push(v);
            },
            Err(e) => {
                proof { lemma_exprs_stop(es@, i + 1, es@.len() as int, limit_of(limit), ctx@); }
                return Err(e);
            },
        }
        match limit {
            Some(l) => {
                if i >= l {
                    proof {
                        reveal_strlit("GEP index out of range");
                        lemma_exprs_stop(es@, i + 1, es@.len() as int, limit_of(limit), ctx@);
                    }
                    return Err(CodegenStop::Error(CodegenError::LlvmError("GEP index out of range".to_string())));
                }
            },
            None => {},
        }
        i = i + 1;
    }
    Ok(vs)
}

/// The limit of `emit_args` as an integer.
pub open spec fn limit_of(limit: Option<usize>) -> Option<int> {
    match limit {
        Option::Some(l) => Option::Some(l as int),
        Option::None => Option::None,
    }
}

/// Lowers a list literal: a stack struct of its length and its elements.
pub fn emit_list(ctx: &CodegenContext, elements: &Vec<Expression>, ty: &TypeAnnotation) -> (r: Result<(Value, LlvmType), CodegenStop>)
    ensures
        lowered_as(r, Expression::List { elements: *elements, ty: *ty }, ctx@),
    decreases elements, 2int,
{
    proof { reveal_strlit("emit_list called with non-list type"); }
    let inner = match ty {
        TypeAnnotation::List(inner) => inner,
        _ => {
            return Err(CodegenStop::Error(CodegenError::UnsupportedType("emit_list called with non-list type".to_string())));
        },
    };
    let elem = match resolve_type(inner) {
        Ok(Some(t)) => t,
        Ok(None) => {
            proof { reveal_strlit(""); }
            let m = wrap("cannot resolve list element type: ", render_type(inner), "");
            assert(m@ == "cannot resolve list element type: "@ + type_debug(**inner));
            return Err(CodegenStop::Error(CodegenError::UnsupportedType(m)));
        },
        Err(e) => {
            return Err(CodegenStop::Error(e));
        },
    };
    let vs = match emit_args(ctx, elements, None) {
        Ok(vs) => vs,
        Err(e) => {
            return Err(e);
        },
    };
    Ok((Value::ListLiteral { elem, elements: vs }, LlvmType::Ptr))
}

/// Lowers a tuple literal: a stack struct with one field per element type.
pub fn emit_tuple(ctx: &CodegenContext, elements: &Vec<Expression>, ty: &TypeAnnotation) -> (r: Result<(Value, LlvmType), CodegenStop>)
    ensures
        lowered_as(r, Expression::Tuple { elements: *elements, ty: *ty }, ctx@),
    decreases elements, 2int,
{
    proof { reveal_strlit("emit_tuple called with non-tuple type"); }
    let ts = match ty {
        TypeAnnotation::Tuple(ts) => ts,
        _ => {
            return Err(CodegenStop::Error(CodegenError::UnsupportedType("emit_tuple called with non-tuple type".to_string())));
        },
    };
    let fields = match resolve_fields(ts) {
        Ok(fs) => fs,
        Err(e) => {
            return Err(CodegenStop::Error(e));
        },
    };
    let vs = match emit_args(ctx, elements, Some(ts.len())) {
        Ok(vs) => vs,
        Err(e) => {
            return Err(e);
        },
    };
    Ok((Value::TupleLiteral { fields, elements: vs }, LlvmType::Ptr))
}

/// Lowers an expression to a value and its machine type.
pub fn emit_expression(ctx: &CodegenContext, expr: &Expression) -> (r: Result<(Value, LlvmType), CodegenStop>)
    ensures
        lowered_as(r, *expr, ctx@),
    decreases expr, 1int,
{
    match expr {
        Expression::IntLiteral(n) => Ok((Value::ConstInt(*n), LlvmType::I64)),
        Expression::FloatLiteral(t) => Ok((Value::ConstFloat(t.clone()), LlvmType::F64)),
        Expression::BoolLiteral(b) => Ok((Value::ConstBool(*b), LlvmType::I1)),
        Expression::StringLiteral(t) => Ok((Value::GlobalString(t.clone()), LlvmType::Ptr)),
        Expression::NoneLiteral => Ok((Value::NullPtr, LlvmType::Ptr)),
        Expression::Name { id, ty } => {
            if !ctx.get_local(id.as_str()) {
                return Err(CodegenStop::Error(CodegenError::UndefinedVariable(id.clone())));
            }
            match resolve_type(ty) {
                Ok(Some(t)) => Ok((Value::Load { name: id.clone(), ty: t }, t)),
                Ok(None) => {
                    proof { reveal_strlit(""); }
                    let m = wrap("cannot load variable of type ", render_type(ty), "");
                    assert(m@ == "cannot load variable of type "@ + type_debug(*ty));
                    Err(CodegenStop::Error(CodegenError::UnsupportedType(m)))
                },
                Err(e) => Err(CodegenStop::Error(e)),
            }
        },
        Expression::BinaryOp { op, left, right, ty } => {
            let (l, lk) = match emit_expression(ctx, left) {
                Ok(p) => p,
                Err(e) => {
                    return Err(e);
                },
            };
            let (r, rk) = match emit_expression(ctx, right) {
                Ok(p) => p,
                Err(e) => {
                    return Err(e);
                },
            };
            emit_binary_op_values(*op, l, lk, r, rk, ty)
        },
        Expression::UnaryOp { op, operand, .. } => {
            let (v, k) = match emit_expression(ctx, operand) {
                Ok(p) => p,
                Err(e) => {
                    return Err(e);
                },
            };
            match op {
                UnaryOp::Neg => if int_kind(k) {
                    Ok((Value::Unary { op: UnaryLowering::IntNeg, operand: Box::new(v) }, k))
                } else if matches!(k, LlvmType::Ptr) {
                    Err(CodegenStop::BuilderPanic)
                } else {
                    Ok((Value::Unary { op: UnaryLowering::FloatNeg, operand: Box::new(v) }, LlvmType::F64))
                },
                UnaryOp::Pos => Ok((v, k)),
                _ => if int_kind(k) {
                    Ok((Value::Unary { op: UnaryLowering::Not, operand: Box::new(v) }, k))
                } else {
                    Err(CodegenStop::BuilderPanic)
                },
            }
        },
        Expression::Call { func, args, .. } => emit_call(ctx, func, args, expr),
        Expression::List { elements, ty } => emit_list(ctx, elements, ty),
        Expression::Tuple { elements, ty } => emit_tuple(ctx, elements, ty),
        _ => Err(CodegenStop::Error(CodegenError::UnsupportedExpression(debug_expression(expr)))),
    }
}

/// Lowers a call: built-ins directly, other names as calls of declared functions.
fn emit_call(ctx: &CodegenContext, func: &Box<Expression>, args: &Vec<Expression>, whole: &Expression) -> (r: Result<(Value, LlvmType), CodegenStop>)
    requires
        whole matches Expression::Call { func: f, args: a, .. } && f == *func && a == *args,
    ensures
        lowered_as(r, *whole, ctx@),
    decreases whole, 0int,
{
    let name = match &**func {
        Expression::Name { id, .. } => id,
        _ => {
            proof { reveal_strlit("only named function calls supported"); }
            return Err(CodegenStop::Error(CodegenError::UnsupportedExpression("only named function calls supported".to_string())));
        },
    };
    if builtin(name.as_str()) {
        if args.len() != 1 {
            let count = crate::text::string_from(crate::text::u64_digits(args.len() as u64).as_slice());
            let mut m = wrap("builtin ", name.clone(), "() expects exactly 1 argument, got ");
            m.append(count.as_str());
            return Err(CodegenStop::Error(CodegenError::UnsupportedExpression(m)));
        }
        assert(decreases_to!(whole => args@[0]));
        proof { reveal_strlit("len"); }
        if str_equal(name.as_str(), "len") {
            match args[0].ty() {
                TypeAnnotation::List(_) => emit_list_len(ctx, &args[0]),
                TypeAnnotation::Tuple(ts) => Ok(emit_tuple_len(ts.len())),
                _ => {
                    let (v, _) = match emit_expression(ctx, &args[0]) {
                        Ok(p) => p,
                        Err(e) => {
                            return Err(e);
                        },
                    };
                    Ok((Value::Builtin { op: BuiltinLowering::StrLen, arg: Box::new(v) }, LlvmType::I64))
                },
            }
        } else {
            let (v, k) = match emit_expression(ctx, &args[0]) {
                Ok(p) => p,
                Err(e) => {
                    return Err(e);
                },
            };
            let b = choose_builtin(name.as_str(), k);
            Ok((Value::Builtin { op: b, arg: Box::new(v) }, kind_of_builtin(b, k)))
        }
    } else {
        let ret = match ctx.get_function(name.as_str()) {
            Some(ret) => ret,
            None => {
                return Err(CodegenStop::Error(CodegenError::UndefinedFunction(name.clone())));
            },
        };
        assert(decreases_to!(whole => *args));
        let vs = match emit_args(ctx, args, None) {
            Ok(vs) => vs,
            Err(e) => {
                return Err(e);
            },
        };
        match ret {
            Some(t) => Ok((Value::Call { callee: name.clone(), args: vs, ret: t }, t)),
            None => Err(CodegenStop::BuilderPanic),
        }
    }
}

} // verus!
