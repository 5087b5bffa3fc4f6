//! The state that lowering carries through a module: local variables, declared functions and
//! the loop nesting.

use vstd::prelude::*;

use super::types::LlvmType;
use crate::adapter::route::{contains_name, views};
use crate::text::str_equal;

verus! {

/// A declared function: its name and its return type (`None` for void).
#[derive(Debug, PartialEq)]
pub struct FunctionSig {
    pub name: String,
    pub ret: Option<LlvmType>,
}

/// One enclosing loop, the target of `break` and `continue`.
#[derive(Debug, Clone, Copy, PartialEq, Eq, Structural)]
pub struct LoopContext;

/// Lowering state: the locals of the current function, the functions declared so far, and
/// the enclosing loops.
#[derive(Debug)]
pub struct CodegenContext {
    locals: Vec<String>,
    functions: Vec<FunctionSig>,
    loop_stack: Vec<LoopContext>,
}

/// The abstract lowering state.
#[verifier::ext_equal]
pub struct EnvView {
    pub locals: Seq<Seq<char>>,
    pub functions: Seq<(Seq<char>, Option<LlvmType>)>,
    pub loop_depth: nat,
}

/// The first declaration of `name`: `Some(ret)` when declared, with its return type.
pub open spec fn lookup_fn(fs: Seq<(Seq<char>, Option<LlvmType>)>, name: Seq<char>) -> Option<Option<LlvmType>>
    decreases fs.len(),
{
    if fs.len() == 0 {
        Option::None
    } else if fs[0].0 == name {
        Option::Some(fs[0].1)
    } else {
        lookup_fn(fs.drop_first(), name)
    }
}

/// `ls` with `name` added at the end, unless it is there already.
pub open spec fn add_name(ls: Seq<Seq<char>>, name: Seq<char>) -> Seq<Seq<char>> {
    if ls.contains(name) {
        ls
    } else {
        ls.push(name)
    }
}

/// `env` with `name` among its locals.
pub open spec fn with_local(env: EnvView, name: Seq<char>) -> EnvView {
    EnvView { locals: add_name(env.locals, name), ..env }
}

/// `env` with the locals `ls`.
pub open spec fn with_locals(env: EnvView, ls: Seq<Seq<char>>) -> EnvView {
    EnvView { locals: ls, ..env }
}

/// `env` inside one more loop.
pub open spec fn in_loop(env: EnvView) -> EnvView {
    EnvView { loop_depth: env.loop_depth + 1, ..env }
}

impl View for CodegenContext {
    type V = EnvView;

    closed spec fn view(&self) -> EnvView {
        EnvView {
            locals: views(self.locals@),
            functions: self.functions@.map_values(|f: FunctionSig| (f.name@, f.ret)),
            loop_depth: self.loop_stack@.len(),
        }
    }
}

impl CodegenContext {
    /// A state with no locals, no functions and no loops.
    pub fn new() -> (c: CodegenContext)
        ensures
            c@.locals == Seq::<Seq<char>>::empty(),
            c@.functions == Seq::<(Seq<char>, Option<LlvmType>)>::empty(),
            c@.loop_depth == 0,
    {
        let c = CodegenContext { locals: Vec::new(), functions: Vec::new(), loop_stack: Vec::new() };
        assert(c@.locals =~= Seq::<Seq<char>>::empty());
        assert(c@.functions =~= Seq::<(Seq<char>, Option<LlvmType>)>::empty());
        c
    }

    /// Records the local variable `name`.
    pub fn set_local(&mut self, name: &str)
        ensures
            final(self)@ == with_local(old(self)@, name@),
    {
        if !contains_name(&self.locals, name) {
            let ghost before = self.locals@;
            self.locals.push(name.to_string());
            assert(views(self.locals@) =~= views(before).push(name@));
        }
    }

    /// Whether `name` is a local variable.
    pub fn get_local(&self, name: &str) -> (r: bool)
        ensures
            r == self@.locals.contains(name@),
    {
        contains_name(&self.locals, name)
    }

    /// Forgets all local variables, between functions.
    pub fn clear_locals(&mut self)
        ensures
            final(self)@ == (EnvView { locals: Seq::empty(), ..old(self)@ }),
    {
        self.locals = Vec::new();
        assert(views(self.locals@) =~= Seq::<Seq<char>>::empty());
    }

    /// Enters a loop.
    pub fn push_loop(&mut self)
        ensures
            final(self)@ == (EnvView { loop_depth: old(self)@.loop_depth + 1, ..old(self)@ }),
    {
        self.loop_stack.push(LoopContext);
    }

    /// Leaves the innermost loop, if any.
    pub fn pop_loop(&mut self)
        ensures
            final(self)@ == (EnvView {
                loop_depth: if old(self)@.loop_depth > 0 { (old(self)@.loop_depth - 1) as nat } else { 0 },
                ..old(self)@
            }),
    {
        self.loop_stack.pop();
    }

    /// The innermost loop, if any.
    pub fn current_loop(&self) -> (r: Option<LoopContext>)
        ensures
            r is Some == (self@.loop_depth > 0),
    {
        if self.loop_stack.len() > 0 {
            Some(self.loop_stack[self.loop_stack.len() - 1])
        } else {
            None
        }
    }

    /// Declares a function.
    pub fn declare_function(&mut self, name: &str, ret: Option<LlvmType>)
        ensures
            final(self)@ == (EnvView { functions: old(self)@.functions.push((name@, ret)), ..old(self)@ }),
    {
        let ghost before = self.functions@;
        self.functions.push(FunctionSig { name: name.to_string(), ret });
        assert(self.functions@.map_values(|f: FunctionSig| (f.name@, f.ret)) =~= before.map_values(
            |f: FunctionSig| (f.name@, f.ret),
        ).push((name@, ret)));
    }

    /// The return type of the first function declared as `name`, if any.
    pub fn get_function(&self, name: &str) -> (r: Option<Option<LlvmType>>)
        ensures
            r == lookup_fn(self@.functions, name@),
    {
        let ghost fs = self@.functions;
        let mut i: usize = 0;
        assert(fs.skip(0) == fs);
        while i < self.functions.len()
            invariant
                i <= self.functions@.len(),
                fs == self@.functions,
                fs.len() == self.functions@.len(),
                lookup_fn(fs, name@) == lookup_fn(fs.skip(i as int), name@),
            decreases self.functions@.len() - i,
        {
            assert(fs.skip(i as int)[0] == fs[i as int]);
            assert(fs.skip(i as int).drop_first() == fs.skip(i + 1));
            if str_equal(self.functions[i].name.as_str(), name) {
                return Some(self.functions[i].ret);
            }
            i = i + 1;
        }
        None
    }
}

} // verus!
