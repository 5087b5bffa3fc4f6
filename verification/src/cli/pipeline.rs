//! What the compilation pipeline reports besides the code.

use vstd::prelude::*;

use crate::adapter::route::{contains_name, views};
use crate::codegen::types::is_json_return_type;
use crate::hir::{Module, Statement};
use crate::codegen::compiler::{defs_lower, fn_defs, fn_env};
use crate::codegen::context::EnvView;
use crate::codegen::emit_function::function_lowers;
use crate::codegen::plan::FunctionPlan;
use crate::text::{first_occurrences, law_first_occurrences};

verus! {

/// The outcome of compiling a module, with what could be compiled natively.
#[derive(Debug)]
pub struct CompileResult {
    /// The LLVM IR of the module.
    pub ir: String,
    /// The functions compiled to native code, each once.
    pub compiled_functions: Vec<String>,
    /// The functions that return JSON through output parameters, each once.
    pub json_functions: Vec<String>,
    /// The functions left to the interpreter, with the reason.
    pub skipped_functions: Vec<(String, String)>,
}

/// The names of the functions defined in `ss` that return a dict, in order.
pub open spec fn dict_function_names(ss: Seq<Statement>) -> Seq<Seq<char>>
    decreases ss.len(),
{
    if ss.len() == 0 {
        Seq::empty()
    } else {
        match ss.last() {
            Statement::FunctionDef(f) => if f.return_type is Dict {
                dict_function_names(ss.drop_last()).push(f.name@)
            } else {
                dict_function_names(ss.drop_last())
            },
            _ => dict_function_names(ss.drop_last()),
        }
    }
}

/// A name is among the dict-returning function names exactly when some function definition
/// of that name returns a dict.
proof fn lemma_dict_names(ss: Seq<Statement>)
    ensures
        forall|k: Seq<char>|
            #[trigger] dict_function_names(ss).contains(k) <==> exists|i: int|
                0 <= i < fn_defs(ss).len() && fn_defs(ss)[i].return_type is Dict && (#[trigger] fn_defs(ss)[i]).name@ == k,
    decreases ss.len(),
{
    if ss.len() > 0 {
        let rest = ss.drop_last();
        lemma_dict_names(rest);
        let d = dict_function_names(ss);
        let dr = dict_function_names(rest);
        let f = fn_defs(ss);
        let fr = fn_defs(rest);
        assert forall|k: Seq<char>| d.contains(k) <==> exists|i: int|
            0 <= i < f.len() && f[i].return_type is Dict && (#[trigger] f[i]).name@ == k by {
            if d.contains(k) {
                let j = choose|j: int| 0 <= j < d.len() && d[j] == k;
                if j < dr.len() {
                    assert(dr[j] == k);
                    assert(dr.contains(k));
                    let i = choose|i: int| 0 <= i < fr.len() && fr[i].return_type is Dict && (#[trigger] fr[i]).name@ == k;
                    assert(f[i] == fr[i]);
                } else {
                    assert(f[f.len() - 1].name@ == k);
                }
            }
            if exists|i: int| 0 <= i < f.len() && f[i].return_type is Dict && (#[trigger] f[i]).name@ == k {
                let i = choose|i: int| 0 <= i < f.len() && f[i].return_type is Dict && (#[trigger] f[i]).name@ == k;
                if i < fr.len() {
                    assert(fr[i] == f[i]);
                    assert(dr.contains(k));
                    let j = choose|j: int| 0 <= j < dr.len() && dr[j] == k;
                    assert(d[j] == k);
                } else {
                    assert(d[d.len() - 1] == k);
                }
            }
        }
    }
}

/// The functions compiled with the JSON convention are exactly those that
/// `extract_json_functions` names, when no two function definitions share a name: a plan is
/// a JSON plan when its function's name is among the dict-returning functions.
pub proof fn law_json_plans_match_json_functions(body: Seq<Statement>, plans: Seq<FunctionPlan>, env: EnvView)
    requires
        defs_lower(plans, fn_defs(body), env),
        forall|i: int, j: int|
            0 <= i < j < fn_defs(body).len() ==> (#[trigger] fn_defs(body)[i]).name@ != (#[trigger] fn_defs(body)[j]).name@,
    ensures
        forall|i: int|
            0 <= i < plans.len() ==> ((#[trigger] plans[i]).json <==> first_occurrences(dict_function_names(body)).contains(
                plans[i].name@,
            )),
{
    lemma_dict_names(body);
    law_first_occurrences(dict_function_names(body));
    let fs = fn_defs(body);
    assert forall|i: int| 0 <= i < plans.len() implies ((#[trigger] plans[i]).json <==> first_occurrences(
        dict_function_names(body),
    ).contains(plans[i].name@)) by {
        assert(function_lowers(plans[i], fs[i], fn_env(fs, i, env)));
        if plans[i].json {
            assert(fs[i].return_type is Dict && fs[i].name@ == plans[i].name@);
        }
        if first_occurrences(dict_function_names(body)).contains(plans[i].name@) {
            let j = choose|j: int| 0 <= j < fs.len() && fs[j].return_type is Dict && (#[trigger] fs[j]).name@ == plans[i].name@;
            if j != i {
                if i < j {
                    assert(fs[i].name@ != fs[j].name@);
                } else {
                    assert(fs[j].name@ != fs[i].name@);
                }
            }
        }
    }
}

/// The functions of a module that return a dict and so use the JSON convention: each name
/// once, in the order of first definition.
pub fn extract_json_functions(module: &Module) -> (r: Vec<String>)
    ensures
        views(r@) == first_occurrences(dict_function_names(module.body@)),
{
    let mut names: Vec<String> = Vec::new();
    let mut i: usize = 0;
    while i < module.body.len()
        invariant
            i <= module.body@.len(),
            views(names@) == first_occurrences(dict_function_names(module.body@.take(i as int))),
        decreases module.body@.len() - i,
    {
        let ghost prefix = module.body@.take(i + 1);
        assert(prefix.drop_last() =~= module.body@.take(i as int));
        assert(prefix.last() == module.body@[i as int]);
        if let Statement::FunctionDef(func) = &module.body[i] {
            if is_json_return_type(&func.return_type) {
                let ghost all = dict_function_names(prefix);
                assert(all.drop_last() == dict_function_names(module.body@.take(i as int)));
                assert(all.last() == func.name@);
                if !contains_name(&names, func.name.as_str()) {
                    let ghost before = names@;
                    names.push(func.name.clone());
                    assert(views(names@) =~= views(before).push(func.name@));
                }
            }
        }
        i = i + 1;
    }
    assert(module.body@.take(module.body@.len() as int) =~= module.body@);
    names
}

} // verus!
