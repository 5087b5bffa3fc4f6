//! Lowering of statements.

use vstd::prelude::*;

use super::context::{add_name, in_loop, with_local, with_locals, CodegenContext, EnvView};
use super::emit_expr::{
    binary_builder_panics, binary_choice, binary_panics, choose_binary, emit_args, emit_expression, ensure_bool,
    expr_kind, expr_outcome, exprs_outcome, int_kind, is_int, lemma_exprs_done, lower_all, lowers_to,
};
use super::error::{stops_as, then, CodegenError, CodegenFailure, CodegenStop, Outcome};
use super::plan::{BoolConversion, Stmt, Value};
use super::types::LlvmType;
use crate::hir::{Expression, Statement, TypeAnnotation};
use crate::text::str_equal;

verus! {

broadcast use vstd::string::group_string_axioms;

/// A statement for which nothing is emitted.
pub open spec fn is_skip(s: Statement) -> bool {
    !(s is Assign || s is AugAssign || s is Return || s is If || s is While || s is For || s is Break
        || s is Continue)
}

/// A statement that ends its block with a terminator.
pub open spec fn is_jump(s: Statement) -> bool {
    s is Return || s is Break || s is Continue
}

/// Whether control falls off the end of a block: the last statement that emits anything does
/// not end in a terminator.
pub open spec fn block_falls(ss: Seq<Statement>) -> bool
    decreases ss.len(),
{
    if ss.len() == 0 {
        true
    } else if is_skip(ss.last()) {
        block_falls(ss.drop_last())
    } else {
        !is_jump(ss.last())
    }
}

/// The type under which an augmented assignment combines values of machine type `k`.
pub open spec fn aug_type(k: LlvmType) -> TypeAnnotation {
    if is_int(k) {
        TypeAnnotation::Int
    } else {
        TypeAnnotation::Float
    }
}

/// How a condition of machine type `k` becomes a branch condition.
pub open spec fn bool_conversion(k: LlvmType) -> BoolConversion {
    match k {
        LlvmType::I1 => BoolConversion::Keep,
        LlvmType::I64 => BoolConversion::IntNonZero,
        _ => BoolConversion::FloatNonZero,
    }
}

/// Whether a condition of machine type `k` can be branched on.
pub open spec fn bool_outcome(k: LlvmType) -> Outcome {
    if k is Ptr {
        Outcome::Fails(CodegenFailure::Type("cannot convert to bool"@))
    } else {
        Outcome::Done
    }
}

/// The arguments of `range(...)` with one to three arguments, the only loops lowered.
pub open spec fn range_args(iter: Expression) -> Option<Seq<Expression>> {
    match iter {
        Expression::Call { func, args, .. } => if *func matches Expression::Name { id, .. } && id@ == "range"@
            && 1 <= args@.len() <= 3 {
            Option::Some(args@)
        } else {
            Option::None
        },
        _ => Option::None,
    }
}

/// The bound argument of a `range` call.
pub open spec fn stop_arg(args: Seq<Expression>) -> Expression {
    if args.len() == 1 {
        args[0]
    } else {
        args[1]
    }
}

/// Whether the step of a `range` call is an integer: the literal 1 unless it is given.
pub open spec fn step_is_int(args: Seq<Expression>, env: EnvView) -> bool {
    args.len() < 3 || is_int(expr_kind(args[2], env))
}

/// The locals after lowering `s` from locals `ls`.
pub open spec fn stmt_locals(s: Statement, ls: Seq<Seq<char>>) -> Seq<Seq<char>>
    decreases s, 0int,
{
    match s {
        Statement::Assign { target, .. } => add_name(ls, target@),
        Statement::If { body, orelse, .. } => block_locals(
            orelse@,
            orelse@.len() as int,
            block_locals(body@, body@.len() as int, ls),
        ),
        Statement::While { body, .. } => block_locals(body@, body@.len() as int, ls),
        Statement::For { target, body, .. } => block_locals(body@, body@.len() as int, add_name(ls, target@)),
        _ => ls,
    }
}

/// The locals after lowering `ss[0..n]` from locals `ls`.
pub open spec fn block_locals(ss: Seq<Statement>, n: int, ls: Seq<Seq<char>>) -> Seq<Seq<char>>
    decreases ss, n,
{
    if n <= 0 || n > ss.len() {
        ls
    } else {
        stmt_locals(ss[n - 1], block_locals(ss, n - 1, ls))
    }
}

/// The state in which statement `i` of `ss` is lowered, starting from `env`.
pub open spec fn env_at(ss: Seq<Statement>, i: int, env: EnvView) -> EnvView {
    with_locals(env, block_locals(ss, i, env.locals))
}

/// The outcome of lowering a statement: success, the first failure, or a panic.
pub open spec fn stmt_outcome(s: Statement, env: EnvView) -> Outcome
    decreases s, 0int,
{
    match s {
        Statement::Return { value } => match value {
            Option::Some(e) => expr_outcome(e, env),
            Option::None => Outcome::Done,
        },
        Statement::Assign { value, .. } => expr_outcome(value, env),
        Statement::AugAssign { target, op, value } => if !env.locals.contains(target@) {
            Outcome::Fails(CodegenFailure::Variable(target@))
        } else {
            let k = expr_kind(value, env);
            then(
                expr_outcome(value, env),
                if binary_panics(binary_choice(op, k, aug_type(k)), k, k) {
                    Outcome::Panics
                } else {
                    Outcome::Done
                },
            )
        },
        Statement::If { test, body, orelse } => then(
            expr_outcome(test, env),
            then(
                bool_outcome(expr_kind(test, env)),
                then(
                    block_outcome(body@, body@.len() as int, env),
                    block_outcome(orelse@, orelse@.len() as int, env_at(body@, body@.len() as int, env)),
                ),
            ),
        ),
        Statement::While { test, body } => then(
            expr_outcome(test, env),
            then(bool_outcome(expr_kind(test, env)), block_outcome(body@, body@.len() as int, in_loop(env))),
        ),
        Statement::For { target, iter, body } => match range_args(iter) {
            Option::None => Outcome::Fails(CodegenFailure::Expr("only range() for loops supported"@)),
            Option::Some(args) => then(
                exprs_outcome(args, args.len() as int, Option::None, env),
                if !is_int(expr_kind(stop_arg(args), env)) {
                    Outcome::Panics
                } else {
                    then(
                        block_outcome(body@, body@.len() as int, in_loop(with_local(env, target@))),
                        if block_falls(body@) && !step_is_int(args, env) {
                            Outcome::Panics
                        } else {
                            Outcome::Done
                        },
                    )
                },
            ),
        },
        Statement::Break => if env.loop_depth == 0 {
            Outcome::Fails(CodegenFailure::Llvm("break outside loop"@))
        } else {
            Outcome::Done
        },
        Statement::Continue => if env.loop_depth == 0 {
            Outcome::Fails(CodegenFailure::Llvm("continue outside loop"@))
        } else {
            Outcome::Done
        },
        _ => Outcome::Done,
    }
}

/// The outcome of lowering `ss[0..n]` in order, each statement in the state the earlier ones
/// leave.
pub open spec fn block_outcome(ss: Seq<Statement>, n: int, env: EnvView) -> Outcome
    decreases ss, n,
{
    if n <= 0 || n > ss.len() {
        Outcome::Done
    } else {
        then(block_outcome(ss, n - 1, env), stmt_outcome(ss[n - 1], env_at(ss, n - 1, env)))
    }
}

/// The lowered bounds of a `range` loop: a missing start is 0, a missing step is 1.
pub open spec fn range_lowers(start: Value, stop: Value, step: Value, args: Seq<Expression>, env: EnvView) -> bool {
    if args.len() == 1 {
        start == Value::ConstInt(0) && lowers_to(stop, args[0], env) && step == Value::ConstInt(1)
    } else if args.len() == 2 {
        lowers_to(start, args[0], env) && lowers_to(stop, args[1], env) && step == Value::ConstInt(1)
    } else {
        lowers_to(start, args[0], env) && lowers_to(stop, args[1], env) && lowers_to(step, args[2], env)
    }
}

/// `p` is the lowering of statement `s` in `env`.
pub open spec fn stmt_lowers(p: Stmt, s: Statement, env: EnvView) -> bool
    decreases s, 0int,
{
    match s {
        Statement::Return { value } => match value {
            Option::Some(e) => p matches Stmt::Return(Option::Some(v)) && lowers_to(v, e, env),
            Option::None => p == Stmt::Return(Option::None),
        },
        Statement::Assign { target, value, .. } => p matches Stmt::Assign { target: t, value: v, new_slot }
            && t@ == target@ && lowers_to(v, value, env) && new_slot == (if env.locals.contains(target@) {
            Option::None
        } else {
            Option::Some(expr_kind(value, env))
        }),
        Statement::AugAssign { target, op, value } => p matches Stmt::AugAssign { target: t, op: b, rhs, rhs_kind }
            && t@ == target@ && rhs_kind == expr_kind(value, env) && b == binary_choice(op, rhs_kind, aug_type(rhs_kind))
            && lowers_to(rhs, value, env),
        Statement::If { test, body, orelse } => p matches Stmt::If {
            cond,
            conversion,
            then_body,
            then_falls,
            else_body,
            else_falls,
        } && lowers_to(cond, test, env) && conversion == bool_conversion(expr_kind(test, env)) && block_lowers(
            then_body@,
            body@,
            env,
        ) && then_falls == block_falls(body@) && block_lowers(
            else_body@,
            orelse@,
            env_at(body@, body@.len() as int, env),
        ) && else_falls == block_falls(orelse@),
        Statement::While { test, body } => p matches Stmt::While { cond, conversion, body: pb, body_falls }
            && lowers_to(cond, test, env) && conversion == bool_conversion(expr_kind(test, env)) && block_lowers(
            pb@,
            body@,
            in_loop(env),
        ) && body_falls == block_falls(body@),
        Statement::For { target, iter, body } => p matches Stmt::For {
            target: t,
            start,
            stop,
            step,
            body: pb,
            body_falls,
        } && t@ == target@ && range_args(iter) is Some && range_lowers(
            start,
            stop,
            step,
            range_args(iter)->0,
            env,
        ) && block_lowers(pb@, body@, in_loop(with_local(env, target@))) && body_falls == block_falls(body@),
        Statement::Break => p == Stmt::Break,
        Statement::Continue => p == Stmt::Continue,
        _ => p == Stmt::Skip,
    }
}

/// `ps` lowers the statements `ss`, each in the state the earlier ones leave.
pub open spec fn block_lowers(ps: Seq<Stmt>, ss: Seq<Statement>, env: EnvView) -> bool
    decreases ss, 1int,
{
    ps.len() == ss.len() && forall|i: int|
        0 <= i < ss.len() ==> stmt_lowers(#[trigger] ps[i], ss[i], env_at(ss, i, env))
}

/// `ps` lowers the first `n` statements of `ss`.
pub open spec fn prefix_lowers(ps: Seq<Stmt>, ss: Seq<Statement>, n: int, env: EnvView) -> bool {
    ps.len() == n && forall|i: int| 0 <= i < n ==> stmt_lowers(#[trigger] ps[i], ss[i], env_at(ss, i, env))
}

/// Once lowering a prefix of a block stops succeeding, longer prefixes end the same way.
pub proof fn lemma_block_stop(ss: Seq<Statement>, k: int, n: int, env: EnvView)
    requires
        0 <= k <= n <= ss.len(),
        !(block_outcome(ss, k, env) is Done),
    ensures
        block_outcome(ss, n, env) == block_outcome(ss, k, env),
    decreases n - k,
{
    if k < n {
        lemma_block_stop(ss, k, n - 1, env);
    }
}

/// Whether control falls off the end of the block `ss`.
pub fn falls_through(ss: &Vec<Statement>) -> (r: bool)
    ensures
        r == block_falls(ss@),
{
    let mut i: usize = ss.len();
    assert(ss@.take(i as int) =~= ss@);
    while i > 0
        invariant
            i <= ss@.len(),
            block_falls(ss@) == block_falls(ss@.take(i as int)),
        decreases i,
    {
        assert(ss@.take(i as int).drop_last() =~= ss@.take(i - 1));
        assert(ss@.take(i as int).last() == ss@[i - 1]);
        match &ss[i - 1] {
            Statement::Assign { .. } | Statement::AugAssign { .. } | Statement::If { .. } | Statement::While {
                ..
            } | Statement::For { .. } => {
                return true;
            },
            Statement::Return { .. } | Statement::Break | Statement::Continue => {
                return false;
            },
            _ => {},
        }
        i = i - 1;
    }
    true
}

/// The arguments of a loop over `range(...)`, if `iter` is one.
fn range_call(iter: &Expression) -> (r: Option<&Vec<Expression>>)
    ensures
        match range_args(*iter) {
            Option::Some(args) => r matches Option::Some(a) && a@ == args,
            Option::None => r is None,
        },
{
    proof { reveal_strlit("range"); }
    match iter {
        Expression::Call { func, args, .. } => match &**func {
            Expression::Name { id, .. } => {
                if str_equal(id.as_str(), "range") && args.len() >= 1 && args.len() <= 3 {
                    Some(args)
                } else {
                    None
                }
            },
            _ => None,
        },
        _ => None,
    }
}

/// Lowers the first `n` statements of a block in order.
pub fn emit_block(ctx: &mut CodegenContext, ss: &Vec<Statement>, n: usize) -> (r: Result<Vec<Stmt>, CodegenStop>)
    requires
        n <= ss@.len(),
    ensures
        final(ctx)@.functions == old(ctx)@.functions,
        match block_outcome(ss@, n as int, old(ctx)@) {
            Outcome::Done => r matches Ok(ps) && prefix_lowers(ps@, ss@, n as int, old(ctx)@) && final(ctx)@
                == env_at(ss@, n as int, old(ctx)@),
            o => stops_as(r, o),
        },
    decreases ss, 1int,
{
    let ghost env = ctx@;
    let mut ps: Vec<Stmt> = Vec::new();
    let mut i: usize = 0;
    while i < n
        invariant
            env == old(ctx)@,
            i <= n <= ss@.len(),
            block_outcome(ss@, i as int, env) is Done,
            ctx@ == env_at(ss@, i as int, env),
            ps@.len() == i,
            forall|j: int| 0 <= j < i ==> stmt_lowers(#[trigger] ps@[j], ss@[j], env_at(ss@, j, env)),
        decreases n - i,
    {
        assert(decreases_to!(ss => ss@[i as int]));
        proof {
            if !(block_outcome(ss@, i + 1, env) is Done) {
                lemma_block_stop(ss@, i + 1, n as int, env);
            }
        }
        let ghost before = ctx@;
        assert(block_outcome(ss@, i + 1, env) == stmt_outcome(ss@[i as int], before));
        match emit_statement(ctx, &ss[i]) {
            Ok(p) => {
                ps.push(p);
            },
            Err(e) => {
                proof { lemma_block_stop(ss@, i + 1, n as int, env); }
                assert(before.functions == env.functions);
                return Err(e);
            },
        }
        i = i + 1;
    }
    Ok(ps)
}

/// Lowers one statement.
pub fn emit_statement(ctx: &mut CodegenContext, stmt: &Statement) -> (r: Result<Stmt, CodegenStop>)
    ensures
        final(ctx)@.functions == old(ctx)@.functions,
        match stmt_outcome(*stmt, old(ctx)@) {
            Outcome::Done => r matches Ok(p) && stmt_lowers(p, *stmt, old(ctx)@) && final(ctx)@ == with_locals(
                old(ctx)@,
                stmt_locals(*stmt, old(ctx)@.locals),
            ),
            o => stops_as(r, o),
        },
    decreases stmt, 1int,
{
    let ghost env = ctx@;
    match stmt {
        Statement::Return { value: Some(e) } => match emit_expression(ctx, e) {
            Ok((v, _)) => Ok(Stmt::Return(Some(v))),
            Err(err) => Err(err),
        },
        Statement::Return { value: None } => Ok(Stmt::Return(None)),
        Statement::Assign { target, value, .. } => {
            let (v, k) = match emit_expression(ctx, value) {
                Ok(p) => p,
                Err(err) => {
                    return Err(err);
                },
            };
            let existed = ctx.get_local(target.as_str());
            if !existed {
                ctx.set_local(target.as_str());
            }
            assert(ctx@ == with_locals(env, stmt_locals(*stmt, env.locals)));
            Ok(Stmt::Assign { target: target.clone(), value: v, new_slot: if existed { None } else { Some(k) } })
        },
        Statement::AugAssign { target, op, value } => {
            if !ctx.get_local(target.as_str()) {
                return Err(CodegenStop::Error(CodegenError::UndefinedVariable(target.clone())));
            }
            let (v, k) = match emit_expression(ctx, value) {
                Ok(p) => p,
                Err(err) => {
                    return Err(err);
                },
            };
            let ty = if int_kind(k) { TypeAnnotation::Int } else { TypeAnnotation::Float };
            let b = choose_binary(*op, k, &ty);
            if binary_builder_panics(b, k, k) {
                return Err(CodegenStop::BuilderPanic);
            }
            Ok(Stmt::AugAssign { target: target.clone(), op: b, rhs: v, rhs_kind: k })
        },
        Statement::If { test, body, orelse } => {
            let (cond, k) = match emit_expression(ctx, test) {
                Ok(p) => p,
                Err(err) => {
                    return Err(err);
                },
            };
            let conversion = match ensure_bool(k) {
                Ok(c) => c,
                Err(err) => {
                    return Err(CodegenStop::Error(err));
                },
            };
            let then_body = match emit_block(ctx, body, body.len()) {
                Ok(ps) => ps,
                Err(err) => {
                    return Err(err);
                },
            };
            let then_falls = falls_through(body);
            let else_body = match emit_block(ctx, orelse, orelse.len()) {
                Ok(ps) => ps,
                Err(err) => {
                    return Err(err);
                },
            };
            let else_falls = falls_through(orelse);
            Ok(Stmt::If { cond, conversion, then_body, then_falls, else_body, else_falls })
        },
        Statement::While { test, body } => {
            let (cond, k) = match emit_expression(ctx, test) {
                Ok(p) => p,
                Err(err) => {
                    return Err(err);
                },
            };
            let conversion = match ensure_bool(k) {
                Ok(c) => c,
                Err(err) => {
                    return Err(CodegenStop::Error(err));
                },
            };
            ctx.push_loop();
            let ps = match emit_block(ctx, body, body.len()) {
                Ok(ps) => ps,
                Err(err) => {
                    return Err(err);
                },
            };
            ctx.pop_loop();
            let body_falls = falls_through(body);
            Ok(Stmt::While { cond, conversion, body: ps, body_falls })
        },
        Statement::For { target, iter, body } => emit_for(ctx, target, iter, body, stmt),
        Statement::Break => {
            if ctx.current_loop().is_none() {
                proof { reveal_strlit("break outside loop"); }
                return Err(CodegenStop::Error(CodegenError::LlvmError("break outside loop".to_string())));
            }
            Ok(Stmt::Break)
        },
        Statement::Continue => {
            if ctx.current_loop().is_none() {
                proof { reveal_strlit("continue outside loop"); }
                return Err(CodegenStop::Error(CodegenError::LlvmError("continue outside loop".to_string())));
            }
            Ok(Stmt::Continue)
        },
        _ => Ok(Stmt::Skip),
    }
}

/// Lowers a loop over `range(...)`: its bounds, then its body inside one more loop.
fn emit_for(
    ctx: &mut CodegenContext,
    target: &String,
    iter: &Expression,
    body: &Vec<Statement>,
    whole: &Statement,
) -> (r: Result<Stmt, CodegenStop>)
    requires
        whole matches Statement::For { target: t, iter: it, body: b } && t == *target && it == *iter && b
            == *body,
    ensures
        final(ctx)@.functions == old(ctx)@.functions,
        match stmt_outcome(*whole, old(ctx)@) {
            Outcome::Done => r matches Ok(p) && stmt_lowers(p, *whole, old(ctx)@) && final(ctx)@ == with_locals(
                old(ctx)@,
                stmt_locals(*whole, old(ctx)@.locals),
            ),
            o => stops_as(r, o),
        },
    decreases whole, 0int,
{
    let ghost env = ctx@;
    assert(decreases_to!(whole => *body));
    let args = match range_call(iter) {
        Some(a) => a,
        None => {
            proof { reveal_strlit("only range() for loops supported"); }
            return Err(
                CodegenStop::Error(CodegenError::UnsupportedExpression("only range() for loops supported".to_string())),
            );
        },
    };
    let mut vs = match emit_args(ctx, args, None) {
        Ok(vs) => vs,
        Err(err) => {
            return Err(err);
        },
    };
    let ghost lowered = vs@;
    let stop_at: usize = if args.len() == 1 { 0 } else { 1 };
    proof { lemma_exprs_done(args@, args@.len() as int, Option::None, env, stop_at as int); }
    let stop_kind = match emit_expression(ctx, &args[stop_at]) {
        Ok((_, k)) => k,
        Err(err) => {
            return Err(err);
        },
    };
    if !int_kind(stop_kind) {
        return Err(CodegenStop::BuilderPanic);
    }
    let step_int = if args.len() == 3 {
        proof { lemma_exprs_done(args@, args@.len() as int, Option::None, env, 2); }
        match emit_expression(ctx, &args[2]) {
            Ok((_, k)) => int_kind(k),
            Err(err) => {
                return Err(err);
            },
        }
    } else {
        true
    };
    assert(step_int == step_is_int(args@, env));
    let (start, stop, step) = if vs.len() == 1 {
        let stop = vs.pop().unwrap();
        (Value::ConstInt(0), stop, Value::ConstInt(1))
    } else if vs.len() == 2 {
        let stop = vs.pop().unwrap();
        let start = vs.pop().unwrap();
        (start, stop, Value::ConstInt(1))
    } else {
        let step = vs.pop().unwrap();
        let stop = vs.pop().unwrap();
        let start = vs.pop().unwrap();
        (start, stop, step)
    };
    assert(lowered.len() == 1 ==> stop == lowered[0]);
    assert(lowered.len() == 2 ==> start == lowered[0] && stop == lowered[1]);
    assert(lowered.len() == 3 ==> start == lowered[0] && stop == lowered[1] && step == lowered[2]);
    ctx.set_local(target.as_str());
    ctx.push_loop();
    let ps = match emit_block(ctx, body, body.len()) {
        Ok(ps) => ps,
        Err(err) => {
            return Err(err);
        },
    };
    ctx.pop_loop();
    let body_falls = falls_through(body);
    if body_falls && !step_int {
        return Err(CodegenStop::BuilderPanic);
    }
    Ok(Stmt::For { target: target.clone(), start, stop, step, body: ps, body_falls })
}

} // verus!
