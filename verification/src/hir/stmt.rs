use vstd::prelude::*;

use super::expr::{duplicate_exprs, duplicate_strings, BinaryOp, Expression};
use super::types::TypeAnnotation;

verus! {

/// A statement node of the intermediate representation.
#[derive(Debug, PartialEq)]
pub enum Statement {
    Assign { target: String, annotation: Option<TypeAnnotation>, value: Expression },
    AugAssign { target: String, op: BinaryOp, value: Expression },
    Return { value: Option<Expression> },
    If { test: Expression, body: Vec<Statement>, orelse: Vec<Statement> },
    While { test: Expression, body: Vec<Statement> },
    For { target: String, iter: Expression, body: Vec<Statement> },
    FunctionDef(Function),
    ClassDef {
        name: String,
        bases: Vec<String>,
        methods: Vec<Function>,
        fields: Vec<(String, TypeAnnotation)>,
    },
    Import { module: String, names: Vec<(String, Option<String>)> },
    ImportFrom { module: String, names: Vec<(String, Option<String>)> },
    Expr(Expression),
    Pass,
    Break,
    Continue,
    Raise { value: Option<Expression> },
    Assert { test: Expression, msg: Option<Expression> },
}

/// A typed function parameter.
#[derive(Debug, PartialEq)]
pub struct Parameter {
    pub name: String,
    pub annotation: TypeAnnotation,
    pub default: Option<Expression>,
}

/// A Python function definition.
#[derive(Debug, PartialEq)]
pub struct Function {
    pub name: String,
    pub params: Vec<Parameter>,
    pub return_type: TypeAnnotation,
    pub body: Vec<Statement>,
    pub decorators: Vec<String>,
    pub is_async: bool,
}

/// A Python module.
#[derive(Debug, PartialEq)]
pub struct Module {
    pub name: String,
    pub path: String,
    pub body: Vec<Statement>,
}

/// Two optional expressions agree.
pub open spec fn same_opt_expr(a: Option<Expression>, b: Option<Expression>) -> bool {
    match a {
        Option::Some(x) => b is Some && x.same(b->0),
        Option::None => b is None,
    }
}

impl Parameter {
    pub open spec fn same(self, o: Parameter) -> bool {
        self.name == o.name && self.annotation.same(o.annotation) && same_opt_expr(
            self.default,
            o.default,
        )
    }
}

impl Statement {
    /// `self` and `o` are the same statement tree.
    pub open spec fn same(self, o: Statement) -> bool
        decreases self,
    {
        match self {
            Statement::Assign { target, annotation, value } => o is Assign && target
                == o->Assign_target && match annotation {
                Option::Some(t) => o->Assign_annotation is Some && t.same(
                    o->Assign_annotation->0,
                ),
                Option::None => o->Assign_annotation is None,
            } && value.same(o->Assign_value),
            Statement::AugAssign { target, op, value } => o is AugAssign && target
                == o->AugAssign_target && op == o->AugAssign_op && value.same(o->AugAssign_value),
            Statement::Return { value } => o is Return && same_opt_expr(value, o->Return_value),
            Statement::If { test, body, orelse } => o is If && test.same(o->If_test)
                && body@.len() == o->If_body@.len() && (forall|i: int|
                0 <= i < body@.len() ==> (#[trigger] body@[i]).same(o->If_body@[i]))
                && orelse@.len() == o->If_orelse@.len() && (forall|i: int|
                0 <= i < orelse@.len() ==> (#[trigger] orelse@[i]).same(o->If_orelse@[i])),
            Statement::While { test, body } => o is While && test.same(o->While_test)
                && body@.len() == o->While_body@.len() && (forall|i: int|
                0 <= i < body@.len() ==> (#[trigger] body@[i]).same(o->While_body@[i])),
            Statement::For { target, iter, body } => o is For && target == o->For_target
                && iter.same(o->For_iter) && body@.len() == o->For_body@.len() && (forall|i: int|
                0 <= i < body@.len() ==> (#[trigger] body@[i]).same(o->For_body@[i])),
            Statement::FunctionDef(f) => o is FunctionDef && f.same(o->FunctionDef_0),
            Statement::ClassDef { name, bases, methods, fields } => o is ClassDef && name
                == o->ClassDef_name && bases@ == o->ClassDef_bases@ && methods@.len()
                == o->ClassDef_methods@.len() && (forall|i: int|
                0 <= i < methods@.len() ==> (#[trigger] methods@[i]).same(o->ClassDef_methods@[i]))
                && fields@.len() == o->ClassDef_fields@.len() && (forall|i: int|
                0 <= i < fields@.len() ==> (#[trigger] fields@[i]).0 == o->ClassDef_fields@[i].0
                    && fields@[i].1.same(o->ClassDef_fields@[i].1)),
            Statement::Import { module, names } => o is Import && module == o->Import_module
                && names@ == o->Import_names@,
            Statement::ImportFrom { module, names } => o is ImportFrom && module
                == o->ImportFrom_module && names@ == o->ImportFrom_names@,
            Statement::Expr(e) => o is Expr && e.same(o->Expr_0),
            Statement::Raise { value } => o is Raise && same_opt_expr(value, o->Raise_value),
            Statement::Assert { test, msg } => o is Assert && test.same(o->Assert_test)
                && same_opt_expr(msg, o->Assert_msg),
            _ => self == o,
        }
    }
}

impl Function {
    /// `self` and `o` are the same function definition.
    pub open spec fn same(self, o: Function) -> bool
        decreases self,
    {
        &&& self.name == o.name
        &&& self.params@.len() == o.params@.len()
        &&& forall|i: int| 0 <= i < self.params@.len() ==> (#[trigger] self.params@[i]).same(o.params@[i])
        &&& self.return_type.same(o.return_type)
        &&& self.body@.len() == o.body@.len()
        &&& forall|i: int| 0 <= i < self.body@.len() ==> (#[trigger] self.body@[i]).same(o.body@[i])
        &&& self.decorators@ == o.decorators@
        &&& self.is_async == o.is_async
    }
}

fn duplicate_opt_expr(e: &Option<Expression>) -> (r: Option<Expression>)
    ensures
        same_opt_expr(r, *e),
{
    match e {
        Some(x) => Some(x.duplicate()),
        None => None,
    }
}

impl Parameter {
    /// A copy of this parameter.
    pub fn duplicate(&self) -> (r: Parameter)
        ensures
            r.same(*self),
    {
        Parameter {
            name: self.name.clone(),
            annotation: self.annotation.duplicate(),
            default: duplicate_opt_expr(&self.default),
        }
    }
}

fn duplicate_names(v: &Vec<(String, Option<String>)>) -> (r: Vec<(String, Option<String>)>)
    ensures
        r@ == v@,
{
    let mut out: Vec<(String, Option<String>)> = Vec::new();
    let mut i: usize = 0;
    while i < v.len()
        invariant
            i <= v@.len(),
            out@ == v@.take(i as int),
        decreases v@.len() - i,
    {
        let alias = match &v[i].1 {
            Some(a) => Some(a.clone()),
            None => None,
        };
        out.push((v[i].0.clone(), alias));
        assert(v@.take(i + 1) == v@.take(i as int).push(v@[i as int]));
        i = i + 1;
    }
    assert(v@.take(v@.len() as int) == v@);
    out
}

fn duplicate_fields(v: &Vec<(String, TypeAnnotation)>) -> (r: Vec<(String, TypeAnnotation)>)
    ensures
        r@.len() == v@.len(),
        forall|i: int|
            0 <= i < v@.len() ==> (#[trigger] r@[i]).0 == v@[i].0 && r@[i].1.same(v@[i].1),
{
    let mut out: Vec<(String, TypeAnnotation)> = Vec::new();
    let mut i: usize = 0;
    while i < v.len()
        invariant
            i <= v@.len(),
            out@.len() == i,
            forall|j: int|
                0 <= j < i ==> (#[trigger] out@[j]).0 == v@[j].0 && out@[j].1.same(v@[j].1),
        decreases v@.len() - i,
    {
        out.push((v[i].0.clone(), v[i].1.duplicate()));
        i = i + 1;
    }
    out
}

fn duplicate_params(v: &Vec<Parameter>) -> (r: Vec<Parameter>)
    ensures
        r@.len() == v@.len(),
        forall|i: int| 0 <= i < v@.len() ==> (#[trigger] r@[i]).same(v@[i]),
{
    let mut out: Vec<Parameter> = Vec::new();
    let mut i: usize = 0;
    while i < v.len()
        invariant
            i <= v@.len(),
            out@.len() == i,
            forall|j: int| 0 <= j < i ==> (#[trigger] out@[j]).same(v@[j]),
        decreases v@.len() - i,
    {
        out.push(v[i].duplicate());
        i = i + 1;
    }
    out
}

/// A copy of a list of statements.
pub fn duplicate_stmts(v: &Vec<Statement>) -> (r: Vec<Statement>)
    ensures
        r@.len() == v@.len(),
        forall|i: int| 0 <= i < v@.len() ==> (#[trigger] r@[i]).same(v@[i]),
    decreases v,
{
    let mut out: Vec<Statement> = Vec::new();
    let mut i: usize = 0;
    while i < v.len()
        invariant
            i <= v@.len(),
            out@.len() == i,
            forall|j: int| 0 <= j < i ==> (#[trigger] out@[j]).same(v@[j]),
        decreases v@.len() - i,
    {
        assert(decreases_to!(v => v@[i as int]));
        out.push(v[i].duplicate());
        i = i + 1;
    }
    out
}

fn duplicate_functions(v: &Vec<Function>) -> (r: Vec<Function>)
    ensures
        r@.len() == v@.len(),
        forall|i: int| 0 <= i < v@.len() ==> (#[trigger] r@[i]).same(v@[i]),
    decreases v,
{
    let mut out: Vec<Function> = Vec::new();
    let mut i: usize = 0;
    while i < v.len()
        invariant
            i <= v@.len(),
            out@.len() == i,
            forall|j: int| 0 <= j < i ==> (#[trigger] out@[j]).same(v@[j]),
        decreases v@.len() - i,
    {
        assert(decreases_to!(v => v@[i as int]));
        out.push(v[i].duplicate());
        i = i + 1;
    }
    out
}

impl Statement {
    /// A copy of this statement tree.
    pub fn duplicate(&self) -> (r: Statement)
        ensures
            r.same(*self),
        decreases self,
    {
        match self {
            Statement::Assign { target, annotation, value } => Statement::Assign {
                target: target.clone(),
                annotation: match annotation {
                    Some(t) => Some(t.duplicate()),
                    None => None,
                },
                value: value.duplicate(),
            },
            Statement::AugAssign { target, op, value } => Statement::AugAssign {
                target: target.clone(),
                op: *op,
                value: value.duplicate(),
            },
            Statement::Return { value } => Statement::Return { value: duplicate_opt_expr(value) },
            Statement::If { test, body, orelse } => Statement::If {
                test: test.duplicate(),
                body: duplicate_stmts(body),
                orelse: duplicate_stmts(orelse),
            },
            Statement::While { test, body } => Statement::While {
                test: test.duplicate(),
                body: duplicate_stmts(body),
            },
            Statement::For { target, iter, body } => Statement::For {
                target: target.clone(),
                iter: iter.duplicate(),
                body: duplicate_stmts(body),
            },
            Statement::FunctionDef(f) => Statement::FunctionDef(f.duplicate()),
            Statement::ClassDef { name, bases, methods, fields } => Statement::ClassDef {
                name: name.clone(),
                bases: duplicate_strings(bases),
                methods: duplicate_functions(methods),
                fields: duplicate_fields(fields),
            },
            Statement::Import { module, names } => Statement::Import {
                module: module.clone(),
                names: duplicate_names(names),
            },
            Statement::ImportFrom { module, names } => Statement::ImportFrom {
                module: module.clone(),
                names: duplicate_names(names),
            },
            Statement::Expr(e) => Statement::Expr(e.duplicate()),
            Statement::Pass => Statement::Pass,
            Statement::Break => Statement::Break,
            Statement::Continue => Statement::Continue,
            Statement::Raise { value } => Statement::Raise { value: duplicate_opt_expr(value) },
            Statement::Assert { test, msg } => Statement::Assert {
                test: test.duplicate(),
                msg: duplicate_opt_expr(msg),
            },
        }
    }
}

impl Function {
    /// A copy of this function definition.
    pub fn duplicate(&self) -> (r: Function)
        ensures
            r.same(*self),
        decreases self,
    {
        Function {
            name: self.name.clone(),
            params: duplicate_params(&self.params),
            return_type: self.return_type.duplicate(),
            body: duplicate_stmts(&self.body),
            decorators: duplicate_strings(&self.decorators),
            is_async: self.is_async,
        }
    }
}

impl Module {
    /// An empty module with the given name and path.
    pub fn new(name: &str, path: &str) -> (m: Module)
        ensures
            m.name@ == name@,
            m.path@ == path@,
            m.body@.len() == 0,
    {
        Module { name: name.to_string(), path: path.to_string(), body: Vec::new() }
    }
}

} // verus!
