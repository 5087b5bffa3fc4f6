//! Lowering of function definitions.

use vstd::prelude::*;

use super::context::{add_name, CodegenContext, EnvView};
use super::debug_text::{expression_debug, render_type, type_debug, wrap};
use super::emit_expr::{resolved, type_fail};
use super::emit_json::{arg_views, json_error, plan_dict, plan_matches, plan_of, ArgFormat, JsonFailure, JsonPlan, PlanShape};
use super::emit_stmt::{block_falls, block_outcome, emit_block, env_at, falls_through, prefix_lowers};
use super::error::{fails_as, reports, stops_as, then, CodegenError, CodegenFailure, CodegenStop, Outcome};
use super::plan::{passes_as, passes_for, ArgPass, Ending, FunctionPlan};
use super::types::{is_json_return_type, lowered_type, resolve_type, LlvmType};
use crate::hir::{Expression, Function, Parameter, Statement};

verus! {

broadcast use vstd::string::group_string_axioms;

/// The return type a function is declared with: `None` for functions that return nothing and
/// for JSON functions, which write their result through output parameters.
pub open spec fn declared_ret(f: Function) -> Option<LlvmType> {
    if f.return_type is Dict {
        Option::None
    } else {
        match lowered_type(f.return_type) {
            Ok(t) => t,
            Err(_) => Option::None,
        }
    }
}

/// The outcome of resolving the types of the parameters `ps[0..n]`.
pub open spec fn params_outcome(ps: Seq<Parameter>, n: int) -> Outcome
    decreases n,
{
    if n <= 0 {
        Outcome::Done
    } else {
        then(
            params_outcome(ps, n - 1),
            match lowered_type(ps[n - 1].annotation) {
                Err(_) => Outcome::Fails(type_fail(ps[n - 1].annotation)),
                Ok(Option::None) => Outcome::Fails(CodegenFailure::Type("void param type for "@ + ps[n - 1].name@)),
                Ok(Option::Some(_)) => Outcome::Done,
            },
        )
    }
}

/// The outcome of declaring a function: its parameter types, and for a function that is not
/// a JSON function, first its return type, which must not be a pointer.
pub open spec fn decl_outcome(f: Function) -> Outcome {
    if f.return_type is Dict {
        params_outcome(f.params@, f.params@.len() as int)
    } else {
        match lowered_type(f.return_type) {
            Err(_) => Outcome::Fails(type_fail(f.return_type)),
            Ok(r) => then(
                params_outcome(f.params@, f.params@.len() as int),
                if r == Option::Some(LlvmType::Ptr) {
                    Outcome::Fails(CodegenFailure::Type(type_debug(f.return_type)))
                } else {
                    Outcome::Done
                },
            ),
        }
    }
}

/// The names of the parameters `ps[0..n]` as locals.
pub open spec fn param_locals(ps: Seq<Parameter>, n: int) -> Seq<Seq<char>>
    decreases n,
{
    if n <= 0 {
        Seq::empty()
    } else {
        add_name(param_locals(ps, n - 1), ps[n - 1].name@)
    }
}

/// The state in which the body of `f` is lowered: its parameters are the locals, and `f` is
/// declared.
pub open spec fn body_env(f: Function, env: EnvView) -> EnvView {
    EnvView {
        locals: param_locals(f.params@, f.params@.len() as int),
        functions: env.functions.push((f.name@, declared_ret(f))),
        loop_depth: env.loop_depth,
    }
}

/// The index of the first statement from `i` on that returns a value, or the length.
pub open spec fn value_return_from(ss: Seq<Statement>, i: int) -> int
    decreases ss.len() - i,
{
    if i < 0 || i >= ss.len() {
        ss.len() as int
    } else if ss[i] matches Statement::Return { value: Option::Some(_) } {
        i
    } else {
        value_return_from(ss, i + 1)
    }
}

/// The first variable of `args[i..]` that is not among `ls`.
pub open spec fn missing_arg(args: Seq<(Seq<char>, ArgFormat)>, ls: Seq<Seq<char>>, i: int) -> Option<Seq<char>>
    decreases args.len() - i,
{
    if i < 0 || i >= args.len() {
        Option::None
    } else if !ls.contains(args[i].0) {
        Option::Some(args[i].0)
    } else {
        missing_arg(args, ls, i + 1)
    }
}

/// The failure that a dict that cannot be planned reports.
pub open spec fn json_failure(f: JsonFailure) -> CodegenFailure {
    match f {
        JsonFailure::KeyNotString => CodegenFailure::Expr("dict key must be a string literal"@),
        JsonFailure::ValueTypeUnsupported(ty) => CodegenFailure::Type("dynamic dict value type: "@ + type_debug(ty)),
        JsonFailure::ValueUnsupported(v) => CodegenFailure::Expr(
            "unsupported dict value expression: "@ + expression_debug(v),
        ),
    }
}

/// The outcome of the return of a JSON function whose body returns a value at statement `n`
/// (or never, when `n` is the length), the earlier statements lowered from `env`.
pub open spec fn json_return_outcome(body: Seq<Statement>, n: int, env: EnvView) -> Outcome {
    if n >= body.len() {
        Outcome::Fails(CodegenFailure::Expr("JSON function must have a return statement with a dict"@))
    } else {
        match body[n] {
            Statement::Return { value: Option::Some(Expression::Dict { keys, values, .. }) } => match plan_of(
                keys@,
                values@,
            ) {
                Err(f) => Outcome::Fails(json_failure(f)),
                Ok(PlanShape::Static(_)) => Outcome::Done,
                Ok(PlanShape::Dynamic(_, args)) => match missing_arg(args, env_at(body, n, env).locals, 0) {
                    Option::Some(name) => Outcome::Fails(CodegenFailure::Variable(name)),
                    Option::None => Outcome::Done,
                },
            },
            _ => Outcome::Fails(CodegenFailure::Expr("JSON function must return a dict literal"@)),
        }
    }
}

/// The outcome of lowering the function `f` in `env`.
pub open spec fn function_outcome(f: Function, env: EnvView) -> Outcome {
    then(
        decl_outcome(f),
        if f.return_type is Dict {
            let n = value_return_from(f.body@, 0);
            then(block_outcome(f.body@, n, body_env(f, env)), json_return_outcome(f.body@, n, body_env(f, env)))
        } else {
            block_outcome(f.body@, f.body@.len() as int, body_env(f, env))
        },
    )
}

/// The parameters of a plan: each parameter's name with the machine type of its annotation.
pub open spec fn params_lower(ps: Seq<(String, LlvmType)>, params: Seq<Parameter>) -> bool {
    ps.len() == params.len() && forall|i: int|
        0 <= i < ps.len() ==> (#[trigger] ps[i]).0@ == params[i].name@ && ps[i].1 == resolved(params[i].annotation)
}

/// `p` is the lowering of the function `f` in `env`.
pub open spec fn function_lowers(p: FunctionPlan, f: Function, env: EnvView) -> bool {
    &&& p.name@ == f.name@
    &&& params_lower(p.params@, f.params@)
    &&& p.ret == declared_ret(f)
    &&& p.json == (f.return_type is Dict)
    &&& if f.return_type is Dict {
        let n = value_return_from(f.body@, 0);
        &&& prefix_lowers(p.body@, f.body@, n, body_env(f, env))
        &&& n < f.body@.len()
        &&& f.body@[n] matches Statement::Return { value: Option::Some(Expression::Dict { keys, values, .. }) }
        &&& p.ending matches Ending::Json { plan: jp, passes } && plan_matches(Ok(jp), plan_of(keys@, values@))
            && passes_for(passes@, jp)
    } else {
        &&& prefix_lowers(p.body@, f.body@, f.body@.len() as int, body_env(f, env))
        &&& p.ending == if !block_falls(f.body@) {
            Ending::Terminated
        } else {
            match declared_ret(f) {
                Option::Some(t) => Ending::ReturnZero(t),
                Option::None => Ending::ReturnVoid,
            }
        }
    }
}

/// Once resolving a prefix of the parameters fails, longer prefixes fail the same way.
proof fn lemma_params_stop(ps: Seq<Parameter>, k: int, n: int)
    requires
        0 <= k <= n,
        !(params_outcome(ps, k) is Done),
    ensures
        params_outcome(ps, n) == params_outcome(ps, k),
    decreases n - k,
{
    if k < n {
        lemma_params_stop(ps, k, n - 1);
    }
}

/// Resolves the parameter types of a function.
fn resolve_params(params: &Vec<Parameter>) -> (r: Result<Vec<(String, LlvmType)>, CodegenError>)
    ensures
        match params_outcome(params@, params@.len() as int) {
            Outcome::Done => r matches Ok(ps) && params_lower(ps@, params@),
            o => fails_as(r, o),
        },
{
    let mut ps: Vec<(String, LlvmType)> = Vec::new();
    let mut i: usize = 0;
    while i < params.len()
        invariant
            i <= params@.len(),
            params_outcome(params@, i as int) is Done,
            ps@.len() == i,
            forall|j: int|
                0 <= j < i ==> (#[trigger] ps@[j]).0@ == params@[j].name@ && ps@[j].1 == resolved(
                    params@[j].annotation,
                ),
        decreases params@.len() - i,
    {
        match resolve_type(&params[i].annotation) {
            Ok(Some(t)) => {
                ps.push((params[i].name.clone(), t));
            },
            Ok(None) => {
                proof {
                    lemma_params_stop(params@, i + 1, params@.len() as int);
                    reveal_strlit("");
                }
                let m = wrap("void param type for ", params[i].name.clone(), "");
                return Err(CodegenError::UnsupportedType(m));
            },
            Err(e) => {
                proof { lemma_params_stop(params@, i + 1, params@.len() as int); }
                return Err(e);
            },
        }
        i = i + 1;
    }
    Ok(ps)
}

/// The index of the first statement that returns a value, or the length.
fn value_return_index(ss: &Vec<Statement>) -> (n: usize)
    ensures
        n == value_return_from(ss@, 0),
        n <= ss@.len(),
{
    let mut i: usize = 0;
    while i < ss.len()
        invariant
            i <= ss@.len(),
            value_return_from(ss@, 0) == value_return_from(ss@, i as int),
        decreases ss@.len() - i,
    {
        if let Statement::Return { value: Some(_) } = &ss[i] {
            return i;
        }
        i = i + 1;
    }
    i
}

/// Checks that every variable a JSON format reads is a local; the first that is not is an
/// undefined variable.
fn check_json_args(ctx: &CodegenContext, plan: &JsonPlan) -> (r: Result<(), CodegenError>)
    ensures
        match *plan {
            JsonPlan::Static(_) => r is Ok,
            JsonPlan::Dynamic { args, .. } => match missing_arg(arg_views(args@), ctx@.locals, 0) {
                Option::Some(name) => r matches Err(e) && reports(e, CodegenFailure::Variable(name)),
                Option::None => r is Ok,
            },
        },
{
    match plan {
        JsonPlan::Static(_) => Ok(()),
        JsonPlan::Dynamic { args, .. } => {
            let ghost a = arg_views(args@);
            let mut i: usize = 0;
            while i < args.len()
                invariant
                    i <= args@.len(),
                    a == arg_views(args@),
                    match *plan {
                        JsonPlan::Dynamic { args: a2, .. } => a2 == *args,
                        _ => false,
                    },
                    missing_arg(a, ctx@.locals, 0) == missing_arg(a, ctx@.locals, i as int),
                decreases args@.len() - i,
            {
                assert(a[i as int] == (args@[i as int].name@, args@[i as int].fmt));
                if !ctx.get_local(args[i].name.as_str()) {
                    return Err(CodegenError::UndefinedVariable(args[i].name.clone()));
                }
                i = i + 1;
            }
            Ok(())
        },
    }
}

/// How each variable of a JSON plan is handed to `snprintf`.
fn arg_passes(plan: &JsonPlan) -> (r: Vec<ArgPass>)
    ensures
        passes_for(r@, *plan),
{
    let mut passes: Vec<ArgPass> = Vec::new();
    match plan {
        JsonPlan::Static(_) => {},
        JsonPlan::Dynamic { args, .. } => {
            let mut i: usize = 0;
            while i < args.len()
                invariant
                    i <= args@.len(),
                    passes@.len() == i,
                    forall|j: int| 0 <= j < i ==> passes_as(#[trigger] passes@[j], args@[j].fmt),
                decreases args@.len() - i,
            {
                let p = match args[i].fmt {
                    ArgFormat::I64 => ArgPass::Load(LlvmType::I64),
                    ArgFormat::F64 => ArgPass::Load(LlvmType::F64),
                    ArgFormat::Str => ArgPass::Load(LlvmType::Ptr),
                    ArgFormat::Bool => {
                        proof {
                            reveal_strlit("true");
                            reveal_strlit("false");
                        }
                        ArgPass::SelectText { if_true: "true".to_string(), if_false: "false".to_string() }
                    },
                };
                passes.push(p);
                i = i + 1;
            }
        },
    }
    passes
}

/// Lowers a function definition: a JSON function when it returns a dict, else a function
/// returning a scalar or nothing.
pub fn emit_function(ctx: &mut CodegenContext, func: &Function) -> (r: Result<FunctionPlan, CodegenStop>)
    ensures
        match function_outcome(*func, old(ctx)@) {
            Outcome::Done => r matches Ok(p) && function_lowers(p, *func, old(ctx)@) && final(ctx)@.functions
                == old(ctx)@.functions.push((func.name@, declared_ret(*func))) && final(ctx)@.loop_depth
                == old(ctx)@.loop_depth,
            o => stops_as(r, o),
        },
{
    let ghost env = ctx@;
    let json = is_json_return_type(&func.return_type);
    let ret: Option<LlvmType> = if json {
        None
    } else {
        match resolve_type(&func.return_type) {
            Ok(t) => t,
            Err(e) => {
                return Err(CodegenStop::Error(e));
            },
        }
    };
    let params = match resolve_params(&func.params) {
        Ok(ps) => ps,
        Err(e) => {
            return Err(CodegenStop::Error(e));
        },
    };
    if !json {
        if let Some(LlvmType::Ptr) = ret {
            return Err(CodegenStop::Error(CodegenError::UnsupportedType(render_type(&func.return_type))));
        }
    }
    assert(decl_outcome(*func) is Done);
    ctx.declare_function(func.name.as_str(), ret);
    ctx.clear_locals();
    let mut i: usize = 0;
    while i < params.len()
        invariant
            i <= params@.len(),
            params_lower(params@, func.params@),
            ctx@ == (EnvView {
                locals: param_locals(func.params@, i as int),
                functions: env.functions.push((func.name@, ret)),
                loop_depth: env.loop_depth,
            }),
        decreases params@.len() - i,
    {
        ctx.set_local(params[i].0.as_str());
        i = i + 1;
    }
    assert(ret == declared_ret(*func));
    assert(ctx@ == body_env(*func, env));
    if json {
        let n = value_return_index(&func.body);
        let body = match emit_block(ctx, &func.body, n) {
            Ok(ps) => ps,
            Err(e) => {
                return Err(e);
            },
        };
        if n >= func.body.len() {
            proof { reveal_strlit("JSON function must have a return statement with a dict"); }
            return Err(
                CodegenStop::Error(
                    CodegenError::UnsupportedExpression(
                        "JSON function must have a return statement with a dict".to_string(),
                    ),
                ),
            );
        }
        match &func.body[n] {
            Statement::Return { value: Some(Expression::Dict { keys, values, .. }) } => {
                let plan = plan_dict(keys.as_slice(), values.as_slice());
                let plan = match plan {
                    Ok(p) => p,
                    Err(e) => {
                        return Err(CodegenStop::Error(e));
                    },
                };
                match check_json_args(ctx, &plan) {
                    Ok(()) => {},
                    Err(e) => {
                        return Err(CodegenStop::Error(e));
                    },
                }
                let passes = arg_passes(&plan);
                Ok(FunctionPlan { name: func.name.clone(), params, ret, json, body, ending: Ending::Json { plan, passes } })
            },
            _ => {
                proof { reveal_strlit("JSON function must return a dict literal"); }
                Err(
                    CodegenStop::Error(
                        CodegenError::UnsupportedExpression("JSON function must return a dict literal".to_string()),
                    ),
                )
            },
        }
    } else {
        let body = match emit_block(ctx, &func.body, func.body.len()) {
            Ok(ps) => ps,
            Err(e) => {
                return Err(e);
            },
        };
        let ending = if !falls_through(&func.body) {
            Ending::Terminated
        } else {
            match ret {
                Some(t) => Ending::ReturnZero(t),
                None => Ending::ReturnVoid,
            }
        };
        Ok(FunctionPlan { name: func.name.clone(), params, ret, json, body, ending })
    }
}

} // verus!
