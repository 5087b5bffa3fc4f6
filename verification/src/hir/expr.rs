use vstd::prelude::*;

use super::types::TypeAnnotation;

verus! {

/// A piece of an f-string: literal text or an interpolated expression.
#[derive(Debug, PartialEq)]
pub enum FStringPart {
    Literal(String),
    Expression(Box<Expression>),
}

/// One `for target in iter if cond...` clause of a comprehension.
#[derive(Debug, PartialEq)]
pub struct Comprehension {
    pub target: Box<Expression>,
    pub iter: Box<Expression>,
    pub conditions: Vec<Expression>,
}

/// A keyword argument of a call; `name` is `None` for `**kwargs`.
#[derive(Debug, PartialEq)]
pub struct Keyword {
    pub name: Option<String>,
    pub value: Expression,
}

/// Binary operators of Python.
#[derive(Debug, Clone, Copy, PartialEq, Eq, Structural)]
pub enum BinaryOp {
    Add,
    Sub,
    Mul,
    Div,
    FloorDiv,
    Mod,
    Pow,
    Eq,
    NotEq,
    Lt,
    LtEq,
    Gt,
    GtEq,
    And,
    Or,
    BitAnd,
    BitOr,
    BitXor,
    LShift,
    RShift,
}

/// Unary operators of Python.
#[derive(Debug, Clone, Copy, PartialEq, Eq, Structural)]
pub enum UnaryOp {
    Neg,
    Not,
    BitNot,
    Pos,
}

/// An expression node of the intermediate representation.
///
/// A float literal carries its value as the decimal text that Rust's `{}` formatting of the
/// `f64` produces, so that the representation holds no floating-point number.
#[derive(Debug, PartialEq)]
pub enum Expression {
    IntLiteral(i64),
    FloatLiteral(String),
    StringLiteral(String),
    BoolLiteral(bool),
    NoneLiteral,
    Name { id: String, ty: TypeAnnotation },
    BinaryOp { op: BinaryOp, left: Box<Expression>, right: Box<Expression>, ty: TypeAnnotation },
    UnaryOp { op: UnaryOp, operand: Box<Expression>, ty: TypeAnnotation },
    Call { func: Box<Expression>, args: Vec<Expression>, keywords: Vec<Keyword>, ty: TypeAnnotation },
    Attribute { value: Box<Expression>, attr: String, ty: TypeAnnotation },
    Subscript { value: Box<Expression>, index: Box<Expression>, ty: TypeAnnotation },
    List { elements: Vec<Expression>, ty: TypeAnnotation },
    Dict { keys: Vec<Expression>, values: Vec<Expression>, ty: TypeAnnotation },
    Tuple { elements: Vec<Expression>, ty: TypeAnnotation },
    IfExpr {
        test: Box<Expression>,
        body: Box<Expression>,
        orelse: Box<Expression>,
        ty: TypeAnnotation,
    },
    Lambda { params: Vec<String>, body: Box<Expression>, ty: TypeAnnotation },
    Await { value: Box<Expression>, ty: TypeAnnotation },
    FString { parts: Vec<FStringPart>, ty: TypeAnnotation },
    ListComp { element: Box<Expression>, generators: Vec<Comprehension>, ty: TypeAnnotation },
    DictComp {
        key: Box<Expression>,
        value: Box<Expression>,
        generators: Vec<Comprehension>,
        ty: TypeAnnotation,
    },
}

impl Expression {
    /// The type annotation that this expression carries.
    pub open spec fn type_of(self) -> TypeAnnotation {
        match self {
            Expression::IntLiteral(_) => TypeAnnotation::Int,
            Expression::FloatLiteral(_) => TypeAnnotation::Float,
            Expression::StringLiteral(_) => TypeAnnotation::Str,
            Expression::BoolLiteral(_) => TypeAnnotation::Bool,
            Expression::NoneLiteral => TypeAnnotation::NoneType,
            Expression::Name { ty, .. } => ty,
            Expression::BinaryOp { ty, .. } => ty,
            Expression::UnaryOp { ty, .. } => ty,
            Expression::Call { ty, .. } => ty,
            Expression::Attribute { ty, .. } => ty,
            Expression::Subscript { ty, .. } => ty,
            Expression::List { ty, .. } => ty,
            Expression::Dict { ty, .. } => ty,
            Expression::Tuple { ty, .. } => ty,
            Expression::IfExpr { ty, .. } => ty,
            Expression::Lambda { ty, .. } => ty,
            Expression::Await { ty, .. } => ty,
            Expression::FString { ty, .. } => ty,
            Expression::ListComp { ty, .. } => ty,
            Expression::DictComp { ty, .. } => ty,
        }
    }

    /// Returns the type annotation of this expression.
    pub fn ty(&self) -> (r: &TypeAnnotation)
        ensures
            *r == self.type_of(),
    {
        match self {
            Expression::IntLiteral(_) => &TypeAnnotation::Int,
            Expression::FloatLiteral(_) => &TypeAnnotation::Float,
            Expression::StringLiteral(_) => &TypeAnnotation::Str,
            Expression::BoolLiteral(_) => &TypeAnnotation::Bool,
            Expression::NoneLiteral => &TypeAnnotation::NoneType,
            Expression::Name { ty, .. } => ty,
            Expression::BinaryOp { ty, .. } => ty,
            Expression::UnaryOp { ty, .. } => ty,
            Expression::Call { ty, .. } => ty,
            Expression::Attribute { ty, .. } => ty,
            Expression::Subscript { ty, .. } => ty,
            Expression::List { ty, .. } => ty,
            Expression::Dict { ty, .. } => ty,
            Expression::Tuple { ty, .. } => ty,
            Expression::IfExpr { ty, .. } => ty,
            Expression::Lambda { ty, .. } => ty,
            Expression::Await { ty, .. } => ty,
            Expression::FString { ty, .. } => ty,
            Expression::ListComp { ty, .. } => ty,
            Expression::DictComp { ty, .. } => ty,
        }
    }

    /// `self` and `o` are the same expression tree.
    pub open spec fn same(self, o: Expression) -> bool
        decreases self,
    {
        match self {
            Expression::Name { id, ty } => o is Name && id == o->Name_id && ty.same(o->Name_ty),
            Expression::BinaryOp { op, left, right, ty } => o is BinaryOp && op == o->BinaryOp_op
                && left.same(*o->BinaryOp_left) && right.same(*o->BinaryOp_right) && ty.same(
                o->BinaryOp_ty,
            ),
            Expression::UnaryOp { op, operand, ty } => o is UnaryOp && op == o->UnaryOp_op
                && operand.same(*o->UnaryOp_operand) && ty.same(o->UnaryOp_ty),
            Expression::Call { func, args, keywords, ty } => o is Call && func.same(*o->Call_func)
                && args@.len() == o->Call_args@.len() && (forall|i: int|
                0 <= i < args@.len() ==> (#[trigger] args@[i]).same(o->Call_args@[i]))
                && keywords@.len() == o->Call_keywords@.len() && (forall|i: int|
                0 <= i < keywords@.len() ==> (#[trigger] keywords@[i]).value.same(
                    o->Call_keywords@[i].value,
                ) && keywords@[i].name == o->Call_keywords@[i].name) && ty.same(o->Call_ty),
            Expression::Attribute { value, attr, ty } => o is Attribute && value.same(
                *o->Attribute_value,
            ) && attr == o->Attribute_attr && ty.same(o->Attribute_ty),
            Expression::Subscript { value, index, ty } => o is Subscript && value.same(
                *o->Subscript_value,
            ) && index.same(*o->Subscript_index) && ty.same(o->Subscript_ty),
            Expression::List { elements, ty } => o is List && elements@.len()
                == o->List_elements@.len() && (forall|i: int|
                0 <= i < elements@.len() ==> (#[trigger] elements@[i]).same(o->List_elements@[i]))
                && ty.same(o->List_ty),
            Expression::Dict { keys, values, ty } => o is Dict && keys@.len() == o->Dict_keys@.len()
                && (forall|i: int|
                0 <= i < keys@.len() ==> (#[trigger] keys@[i]).same(o->Dict_keys@[i]))
                && values@.len() == o->Dict_values@.len() && (forall|i: int|
                0 <= i < values@.len() ==> (#[trigger] values@[i]).same(o->Dict_values@[i]))
                && ty.same(o->Dict_ty),
            Expression::Tuple { elements, ty } => o is Tuple && elements@.len()
                == o->Tuple_elements@.len() && (forall|i: int|
                0 <= i < elements@.len() ==> (#[trigger] elements@[i]).same(o->Tuple_elements@[i]))
                && ty.same(o->Tuple_ty),
            Expression::IfExpr { test, body, orelse, ty } => o is IfExpr && test.same(
                *o->IfExpr_test,
            ) && body.same(*o->IfExpr_body) && orelse.same(*o->IfExpr_orelse) && ty.same(
                o->IfExpr_ty,
            ),
            Expression::Lambda { params, body, ty } => o is Lambda && params@ == o->Lambda_params@
                && body.same(*o->Lambda_body) && ty.same(o->Lambda_ty),
            Expression::Await { value, ty } => o is Await && value.same(*o->Await_value) && ty.same(
                o->Await_ty,
            ),
            Expression::FString { parts, ty } => o is FString && parts@.len()
                == o->FString_parts@.len() && (forall|i: int|
                0 <= i < parts@.len() ==> match (#[trigger] parts@[i]) {
                    FStringPart::Literal(t) => o->FString_parts@[i] == FStringPart::Literal(t),
                    FStringPart::Expression(e) => o->FString_parts@[i] is Expression && e.same(
                        *o->FString_parts@[i]->Expression_0,
                    ),
                }) && ty.same(o->FString_ty),
            Expression::ListComp { element, generators, ty } => o is ListComp && element.same(
                *o->ListComp_element,
            ) && generators@.len() == o->ListComp_generators@.len() && (forall|i: int|
                0 <= i < generators@.len() ==> (#[trigger] generators@[i]).same(
                    o->ListComp_generators@[i],
                )) && ty.same(o->ListComp_ty),
            Expression::DictComp { key, value, generators, ty } => o is DictComp && key.same(
                *o->DictComp_key,
            ) && value.same(*o->DictComp_value) && generators@.len()
                == o->DictComp_generators@.len() && (forall|i: int|
                0 <= i < generators@.len() ==> (#[trigger] generators@[i]).same(
                    o->DictComp_generators@[i],
                )) && ty.same(o->DictComp_ty),
            _ => self == o,
        }
    }
}

impl Comprehension {
    /// `self` and `o` are the same clause.
    pub open spec fn same(self, o: Comprehension) -> bool
        decreases self,
    {
        self.target.same(*o.target) && self.iter.same(*o.iter) && self.conditions@.len()
            == o.conditions@.len() && forall|i: int|
            0 <= i < self.conditions@.len() ==> (#[trigger] self.conditions@[i]).same(
                o.conditions@[i],
            )
    }
}

impl Expression {
    /// A copy of this expression tree.
    pub fn duplicate(&self) -> (r: Expression)
        ensures
            r.same(*self),
        decreases self,
    {
        match self {
            Expression::IntLiteral(n) => Expression::IntLiteral(*n),
            Expression::FloatLiteral(t) => Expression::FloatLiteral(t.clone()),
            Expression::StringLiteral(t) => Expression::StringLiteral(t.clone()),
            Expression::BoolLiteral(b) => Expression::BoolLiteral(*b),
            Expression::NoneLiteral => Expression::NoneLiteral,
            Expression::Name { id, ty } => Expression::Name { id: id.clone(), ty: ty.duplicate() },
            Expression::BinaryOp { op, left, right, ty } => Expression::BinaryOp {
                op: *op,
                left: Box::new(left.duplicate()),
                right: Box::new(right.duplicate()),
                ty: ty.duplicate(),
            },
            Expression::UnaryOp { op, operand, ty } => Expression::UnaryOp {
                op: *op,
                operand: Box::new(operand.duplicate()),
                ty: ty.duplicate(),
            },
            Expression::Call { func, args, keywords, ty } => Expression::Call {
                func: Box::new(func.duplicate()),
                args: duplicate_exprs(args),
                keywords: duplicate_keywords(keywords),
                ty: ty.duplicate(),
            },
            Expression::Attribute { value, attr, ty } => Expression::Attribute {
                value: Box::new(value.duplicate()),
                attr: attr.clone(),
                ty: ty.duplicate(),
            },
            Expression::Subscript { value, index, ty } => Expression::Subscript {
                value: Box::new(value.duplicate()),
                index: Box::new(index.duplicate()),
                ty: ty.duplicate(),
            },
            Expression::List { elements, ty } => Expression::List {
                elements: duplicate_exprs(elements),
                ty: ty.duplicate(),
            },
            Expression::Dict { keys, values, ty } => Expression::Dict {
                keys: duplicate_exprs(keys),
                values: duplicate_exprs(values),
                ty: ty.duplicate(),
            },
            Expression::Tuple { elements, ty } => Expression::Tuple {
                elements: duplicate_exprs(elements),
                ty: ty.duplicate(),
            },
            Expression::IfExpr { test, body, orelse, ty } => Expression::IfExpr {
                test: Box::new(test.duplicate()),
                body: Box::new(body.duplicate()),
                orelse: Box::new(orelse.duplicate()),
                ty: ty.duplicate(),
            },
            Expression::Lambda { params, body, ty } => Expression::Lambda {
                params: duplicate_strings(params),
                body: Box::new(body.duplicate()),
                ty: ty.duplicate(),
            },
            Expression::Await { value, ty } => Expression::Await {
                value: Box::new(value.duplicate()),
                ty: ty.duplicate(),
            },
            Expression::FString { parts, ty } => Expression::FString {
                parts: duplicate_fstring_parts(parts),
                ty: ty.duplicate(),
            },
            Expression::ListComp { element, generators, ty } => Expression::ListComp {
                element: Box::new(element.duplicate()),
                generators: duplicate_comprehensions(generators),
                ty: ty.duplicate(),
            },
            Expression::DictComp { key, value, generators, ty } => Expression::DictComp {
                key: Box::new(key.duplicate()),
                value: Box::new(value.duplicate()),
                generators: duplicate_comprehensions(generators),
                ty: ty.duplicate(),
            },
        }
    }
}

/// A copy of a list of strings.
pub fn duplicate_strings(v: &Vec<String>) -> (r: Vec<String>)
    ensures
        r@ == v@,
{
    let mut out: Vec<String> = Vec::new();
    let mut i: usize = 0;
    while i < v.len()
        invariant
            i <= v@.len(),
            out@ == v@.take(i as int),
        decreases v@.len() - i,
    {
        out.push(v[i].clone());
        assert(v@.take(i + 1) == v@.take(i as int).push(v@[i as int]));
        i = i + 1;
    }
    assert(v@.take(v@.len() as int) == v@);
    out
}

/// A copy of a list of expressions.
pub fn duplicate_exprs(v: &Vec<Expression>) -> (r: Vec<Expression>)
    ensures
        r@.len() == v@.len(),
        forall|i: int| 0 <= i < v@.len() ==> (#[trigger] r@[i]).same(v@[i]),
    decreases v,
{
    let mut out: Vec<Expression> = Vec::new();
    let mut i: usize = 0;
    while i < v.len()
        invariant
            i <= v@.len(),
            out@.len() == i,
            forall|j: int| 0 <= j < i ==> (#[trigger] out@[j]).same(v@[j]),
        decreases v@.len() - i,
    {
        assert(decreases_to!(v => v@[i as int]));
        out.push(v[i].duplicate());
        i = i + 1;
    }
    out
}

fn duplicate_keywords(v: &Vec<Keyword>) -> (r: Vec<Keyword>)
    ensures
        r@.len() == v@.len(),
        forall|i: int|
            0 <= i < v@.len() ==> (#[trigger] r@[i]).value.same(v@[i].value) && r@[i].name
                == v@[i].name,
    decreases v,
{
    let mut out: Vec<Keyword> = Vec::new();
    let mut i: usize = 0;
    while i < v.len()
        invariant
            i <= v@.len(),
            out@.len() == i,
            forall|j: int|
                0 <= j < i ==> (#[trigger] out@[j]).value.same(v@[j].value) && out@[j].name
                    == v@[j].name,
        decreases v@.len() - i,
    {
        assert(decreases_to!(v => v@[i as int]));
        assert(decreases_to!(v@[i as int] => v@[i as int].value));
        let k = Keyword { name: v[i].name.clone(), value: v[i].value.duplicate() };
        out.push(k);
        i = i + 1;
    }
    out
}

fn duplicate_fstring_parts(v: &Vec<FStringPart>) -> (r: Vec<FStringPart>)
    ensures
        r@.len() == v@.len(),
        forall|i: int|
            0 <= i < v@.len() ==> match (#[trigger] r@[i]) {
                FStringPart::Literal(t) => v@[i] == FStringPart::Literal(t),
                FStringPart::Expression(e) => v@[i] is Expression && e.same(
                    *v@[i]->Expression_0,
                ),
            },
    decreases v,
{
    let mut out: Vec<FStringPart> = Vec::new();
    let mut i: usize = 0;
    while i < v.len()
        invariant
            i <= v@.len(),
            out@.len() == i,
            forall|j: int|
                0 <= j < i ==> match (#[trigger] out@[j]) {
                    FStringPart::Literal(t) => v@[j] == FStringPart::Literal(t),
                    FStringPart::Expression(e) => v@[j] is Expression && e.same(
                        *v@[j]->Expression_0,
                    ),
                },
        decreases v@.len() - i,
    {
        assert(decreases_to!(v => v@[i as int]));
        let p = match &v[i] {
            FStringPart::Literal(t) => FStringPart::Literal(t.clone()),
            FStringPart::Expression(e) => FStringPart::Expression(Box::new(e.duplicate())),
        };
        out.push(p);
        i = i + 1;
    }
    out
}

fn duplicate_comprehensions(v: &Vec<Comprehension>) -> (r: Vec<Comprehension>)
    ensures
        r@.len() == v@.len(),
        forall|i: int| 0 <= i < v@.len() ==> (#[trigger] r@[i]).same(v@[i]),
    decreases v,
{
    let mut out: Vec<Comprehension> = Vec::new();
    let mut i: usize = 0;
    while i < v.len()
        invariant
            i <= v@.len(),
            out@.len() == i,
            forall|j: int| 0 <= j < i ==> (#[trigger] out@[j]).same(v@[j]),
        decreases v@.len() - i,
    {
        assert(decreases_to!(v => v@[i as int]));
        let c = &v[i];
        let d = Comprehension {
            target: Box::new(c.target.duplicate()),
            iter: Box::new(c.iter.duplicate()),
            conditions: duplicate_exprs(&c.conditions),
        };
        out.push(d);
        i = i + 1;
    }
    out
}

} // verus!
