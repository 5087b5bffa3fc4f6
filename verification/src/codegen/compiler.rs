//! Lowering of whole modules.

use vstd::prelude::*;

use super::context::{CodegenContext, EnvView};
use super::emit_function::{declared_ret, emit_function, function_lowers, function_outcome};
use super::error::{stops_as, then, CodegenStop, Outcome};
use super::plan::FunctionPlan;
use super::types::LlvmType;
use crate::hir::{Function, Module, Statement};

verus! {

/// The function definitions among the statements `ss`, in order.
pub open spec fn fn_defs(ss: Seq<Statement>) -> Seq<Function>
    decreases ss.len(),
{
    if ss.len() == 0 {
        Seq::empty()
    } else {
        match ss.last() {
            Statement::FunctionDef(f) => fn_defs(ss.drop_last()).push(f),
            _ => fn_defs(ss.drop_last()),
        }
    }
}

/// The declarations that the functions `fs` add, in order.
pub open spec fn decls(fs: Seq<Function>) -> Seq<(Seq<char>, Option<LlvmType>)> {
    fs.map_values(|f: Function| (f.name@, declared_ret(f)))
}

/// The state in which function `i` of `fs` is lowered: the earlier ones are declared.
pub open spec fn fn_env(fs: Seq<Function>, i: int, env: EnvView) -> EnvView {
    EnvView { functions: env.functions + decls(fs.take(i)), ..env }
}

/// The outcome of lowering the functions `fs[0..n]` in order.
pub open spec fn defs_outcome(fs: Seq<Function>, n: int, env: EnvView) -> Outcome
    decreases n,
{
    if n <= 0 || n > fs.len() {
        Outcome::Done
    } else {
        then(defs_outcome(fs, n - 1, env), function_outcome(fs[n - 1], fn_env(fs, n - 1, env)))
    }
}

/// The outcome of compiling a module body: each function definition is lowered in order,
/// other statements are ignored.
pub open spec fn module_outcome(body: Seq<Statement>, env: EnvView) -> Outcome {
    defs_outcome(fn_defs(body), fn_defs(body).len() as int, env)
}

/// `ps` lowers the functions `fs`, each with the earlier ones declared.
pub open spec fn defs_lower(ps: Seq<FunctionPlan>, fs: Seq<Function>, env: EnvView) -> bool {
    ps.len() == fs.len() && forall|i: int|
        0 <= i < fs.len() ==> function_lowers(#[trigger] ps[i], fs[i], fn_env(fs, i, env))
}

/// A module's plans follow its function definitions: one plan each, in order, under the
/// function's name, JSON plans for the functions that return a dict, and those return
/// nothing directly.
pub proof fn law_plans_follow_definitions(plans: Seq<FunctionPlan>, fs: Seq<Function>, env: EnvView)
    requires
        defs_lower(plans, fs, env),
    ensures
        plans.len() == fs.len(),
        forall|i: int|
            0 <= i < plans.len() ==> (#[trigger] plans[i]).name@ == fs[i].name@ && plans[i].json == (
            fs[i].return_type is Dict) && (plans[i].json ==> plans[i].ret is None),
{
    assert forall|i: int| 0 <= i < plans.len() implies (#[trigger] plans[i]).name@ == fs[i].name@ && plans[i].json == (
    fs[i].return_type is Dict) && (plans[i].json ==> plans[i].ret is None) by {
        assert(function_lowers(plans[i], fs[i], fn_env(fs, i, env)));
    }
}

/// Lowering a function reads only the declared functions and the loop depth of its state.
proof fn lemma_function_env(f: Function, e1: EnvView, e2: EnvView)
    requires
        e1.functions == e2.functions,
        e1.loop_depth == e2.loop_depth,
    ensures
        function_outcome(f, e1) == function_outcome(f, e2),
        forall|p: FunctionPlan| function_lowers(p, f, e1) == function_lowers(p, f, e2),
{
    assert(super::emit_function::body_env(f, e1) == super::emit_function::body_env(f, e2));
}

/// Once lowering a prefix of the functions stops succeeding, longer prefixes end the same way.
proof fn lemma_defs_stop(fs: Seq<Function>, k: int, n: int, env: EnvView)
    requires
        0 <= k <= n <= fs.len(),
        !(defs_outcome(fs, k, env) is Done),
    ensures
        defs_outcome(fs, n, env) == defs_outcome(fs, k, env),
    decreases n - k,
{
    if k < n {
        lemma_defs_stop(fs, k, n - 1, env);
    }
}

/// Compiles modules of the intermediate representation into function plans.
#[derive(Debug)]
pub struct Compiler {
    module_name: String,
    ctx: CodegenContext,
    functions: Vec<FunctionPlan>,
}

impl Compiler {
    /// The lowering state.
    pub closed spec fn env(&self) -> EnvView {
        self.ctx@
    }

    /// The plans of the functions compiled so far.
    pub closed spec fn plans(&self) -> Seq<FunctionPlan> {
        self.functions@
    }

    /// The name of the module being built.
    pub closed spec fn name(&self) -> Seq<char> {
        self.module_name@
    }

    /// A compiler with nothing compiled yet.
    pub fn new(module_name: &str) -> (c: Compiler)
        ensures
            c.name() == module_name@,
            c.plans() == Seq::<FunctionPlan>::empty(),
            c.env().locals == Seq::<Seq<char>>::empty(),
            c.env().functions == Seq::<(Seq<char>, Option<LlvmType>)>::empty(),
            c.env().loop_depth == 0,
    {
        let c = Compiler { module_name: module_name.to_string(), ctx: CodegenContext::new(), functions: Vec::new() };
        assert(c.functions@ =~= Seq::<FunctionPlan>::empty());
        c
    }

    /// The name of the module being built.
    pub fn module_name(&self) -> (r: &str)
        ensures
            r@ == self.name(),
    {
        self.module_name.as_str()
    }

    /// The plans of the functions compiled so far, in order.
    pub fn functions(&self) -> (r: &Vec<FunctionPlan>)
        ensures
            r@ == self.plans(),
    {
        &self.functions
    }

    /// Compiles the function definitions of a module, in order; other statements are ignored.
    /// Lowering stops at the first function that fails, or whose lowering would make the
    /// instruction builder panic.
    pub fn compile_module(&mut self, module: &Module) -> (r: Result<(), CodegenStop>)
        ensures
            final(self).name() == old(self).name(),
            match module_outcome(module.body@, old(self).env()) {
                Outcome::Done => r is Ok && final(self).plans() == old(self).plans() + final(self).plans().skip(
                    old(self).plans().len() as int,
                ) && defs_lower(
                    final(self).plans().skip(old(self).plans().len() as int),
                    fn_defs(module.body@),
                    old(self).env(),
                ) && final(self).env().functions == old(self).env().functions + decls(fn_defs(module.body@))
                    && final(self).env().loop_depth == old(self).env().loop_depth,
                o => stops_as(r, o),
            },
    {
        let ghost env = self.ctx@;
        let ghost start = self.functions@;
        let ghost ss = module.body@;
        let ghost fs = fn_defs(ss);
        let mut i: usize = 0;
        let ghost mut k: int = 0;
        assert(ss.take(0) =~= Seq::<Statement>::empty());
        assert(decls(fs.take(0)) =~= Seq::<(Seq<char>, Option<LlvmType>)>::empty());
        assert(self.functions@.skip(start.len() as int) =~= Seq::<FunctionPlan>::empty());
        while i < module.body.len()
            invariant
                env == old(self).env(),
                start == old(self).plans(),
                ss == module.body@,
                fs == fn_defs(ss),
                self.module_name@ == old(self).name(),
                i <= ss.len(),
                k == fn_defs(ss.take(i as int)).len(),
                fn_defs(ss.take(i as int)) == fs.take(k),
                k <= fs.len(),
                defs_outcome(fs, k, env) is Done,
                self.ctx@.functions == env.functions + decls(fs.take(k)),
                self.ctx@.loop_depth == env.loop_depth,
                self.functions@.len() == start.len() + k,
                self.functions@.take(start.len() as int) == start,
                forall|j: int|
                    0 <= j < k ==> function_lowers(
                        #[trigger] self.functions@[start.len() + j],
                        fs[j],
                        fn_env(fs, j, env),
                    ),
            decreases ss.len() - i,
        {
            proof { lemma_prefix_defs(ss, i as int, fs, k); }
            match self.compile_statement(&module.body[i], Ghost(fs), Ghost(k), Ghost(env)) {
                Ok(()) => {},
                Err(e) => {
                    return Err(e);
                },
            }
            proof {
                if ss[i as int] is FunctionDef {
                    k = k + 1;
                }
            }
            i = i + 1;
        }
        proof {
            lemma_all_defs(ss, fs, k);
            assert(fs.take(k) =~= fs);
            let added = self.functions@.skip(start.len() as int);
            assert forall|j: int| 0 <= j < fs.len() implies function_lowers(
                #[trigger] added[j],
                fs[j],
                fn_env(fs, j, env),
            ) by {
                assert(added[j] == self.functions@[start.len() + j]);
            }
            assert(defs_lower(added, fs, env));
        }
        assert(self.functions@ =~= start + self.functions@.skip(start.len() as int));
        Ok(())
    }

    /// Compiles one statement of a module: a function definition is lowered and its plan kept.
    fn compile_statement(
        &mut self,
        stmt: &Statement,
        Ghost(fs): Ghost<Seq<Function>>,
        Ghost(k): Ghost<int>,
        Ghost(env): Ghost<EnvView>,
    ) -> (r: Result<(), CodegenStop>)
        requires
            0 <= k <= fs.len(),
            defs_outcome(fs, k, env) is Done,
            stmt is FunctionDef ==> k < fs.len() && fs[k] == stmt->FunctionDef_0,
            old(self).ctx@.functions == env.functions + decls(fs.take(k)),
            old(self).ctx@.loop_depth == env.loop_depth,
        ensures
            final(self).module_name == old(self).module_name,
            !(stmt is FunctionDef) ==> r is Ok && *final(self) == *old(self),
            stmt is FunctionDef ==> match defs_outcome(fs, k + 1, env) {
                Outcome::Done => r is Ok && final(self).functions@ == old(self).functions@.push(
                    final(self).functions@.last(),
                ) && function_lowers(final(self).functions@.last(), fs[k], fn_env(fs, k, env))
                    && final(self).ctx@.functions == env.functions + decls(fs.take(k + 1))
                    && final(self).ctx@.loop_depth == env.loop_depth,
                o => stops_as(r, o) && defs_outcome(fs, fs.len() as int, env) == o,
            },
    {
        match stmt {
            Statement::FunctionDef(func) => {
                proof {
                    lemma_function_env(*func, self.ctx@, fn_env(fs, k, env));
                    assert(fs.take(k + 1) =~= fs.take(k).push(fs[k]));
                    assert(decls(fs.take(k + 1)) =~= decls(fs.take(k)).push((func.name@, declared_ret(*func))));
                    if !(defs_outcome(fs, k + 1, env) is Done) {
                        lemma_defs_stop(fs, k + 1, fs.len() as int, env);
                    }
                }
                self.compile_function(func)
            },
            _ => Ok(()),
        }
    }

    /// Lowers one function and keeps its plan.
    fn compile_function(&mut self, func: &Function) -> (r: Result<(), CodegenStop>)
        ensures
            final(self).module_name == old(self).module_name,
            match function_outcome(*func, old(self).ctx@) {
                Outcome::Done => r is Ok && final(self).functions@ == old(self).functions@.push(
                    final(self).functions@.last(),
                ) && function_lowers(final(self).functions@.last(), *func, old(self).ctx@)
                    && final(self).ctx@.functions == old(self).ctx@.functions.push(
                    (func.name@, declared_ret(*func)),
                ) && final(self).ctx@.loop_depth == old(self).ctx@.loop_depth,
                o => stops_as(r, o),
            },
    {
        match emit_function(&mut self.ctx, func) {
            Ok(p) => {
                self.functions.push(p);
                Ok(())
            },
            Err(e) => Err(e),
        }
    }
}

/// The function definitions among `ss[0..i]` are the first `k` of all of them, and the
/// next statement, when it is one, is function `k`.
proof fn lemma_prefix_defs(ss: Seq<Statement>, i: int, fs: Seq<Function>, k: int)
    requires
        0 <= i < ss.len(),
        fs == fn_defs(ss),
        fn_defs(ss.take(i)) == fs.take(k),
        k == fn_defs(ss.take(i)).len(),
    ensures
        fn_defs(ss.take(i + 1)) == if ss[i] is FunctionDef {
            fs.take(k + 1)
        } else {
            fs.take(k)
        },
        ss[i] is FunctionDef ==> k < fs.len() && fs[k] == ss[i]->FunctionDef_0,
{
    lemma_defs_prefix(ss, i + 1);
    lemma_defs_take(ss, i + 1);
    if ss[i] is FunctionDef {
        let d = fn_defs(ss.take(i + 1));
        assert(d == fs.take(k).push(ss[i]->FunctionDef_0));
        assert(d[k] == ss[i]->FunctionDef_0);
        assert(d =~= fs.take(k + 1));
    }
}

/// After the last statement, all function definitions were seen.
proof fn lemma_all_defs(ss: Seq<Statement>, fs: Seq<Function>, k: int)
    requires
        fs == fn_defs(ss),
        fn_defs(ss.take(ss.len() as int)) == fs.take(k),
        k == fn_defs(ss.take(ss.len() as int)).len(),
    ensures
        k == fs.len(),
{
    assert(ss.take(ss.len() as int) =~= ss);
}

/// The function definitions of a prefix of the statements are a prefix of all of them.
proof fn lemma_defs_take(ss: Seq<Statement>, n: int)
    requires
        0 <= n <= ss.len(),
    ensures
        fn_defs(ss.take(n)).len() <= fn_defs(ss).len(),
        fn_defs(ss.take(n)) == fn_defs(ss).take(fn_defs(ss.take(n)).len() as int),
    decreases ss.len(),
{
    if n == ss.len() {
        assert(ss.take(n) =~= ss);
        assert(fn_defs(ss).take(fn_defs(ss).len() as int) =~= fn_defs(ss));
    } else {
        let rest = ss.drop_last();
        assert(rest.take(n) =~= ss.take(n));
        lemma_defs_take(rest, n);
        let d = fn_defs(ss.take(n));
        assert(fn_defs(ss).take(d.len() as int) =~= fn_defs(rest).take(d.len() as int));
    }
}

/// The function definitions of a prefix, one statement longer.
proof fn lemma_defs_prefix(ss: Seq<Statement>, n: int)
    requires
        0 < n <= ss.len(),
    ensures
        fn_defs(ss.take(n)) == match ss[n - 1] {
            Statement::FunctionDef(f) => fn_defs(ss.take(n - 1)).push(f),
            _ => fn_defs(ss.take(n - 1)),
        },
{
    assert(ss.take(n).drop_last() =~= ss.take(n - 1));
    assert(ss.take(n).last() == ss[n - 1]);
}

} // verus!
