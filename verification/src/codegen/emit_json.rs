use vstd::prelude::*;

use super::debug_text::{debug_expression, expression_debug, render_type, type_debug};
use super::error::CodegenError;
use crate::hir::{Expression, TypeAnnotation};
use crate::text::{i64_text, int_text, json_escaped, push_json_escaped};

verus! {

broadcast use vstd::string::group_string_axioms;

/// How a dict expression is turned into JSON.
#[derive(Debug, PartialEq)]
pub enum JsonPlan {
    /// Every value is a literal: the whole JSON text is a constant.
    Static(String),
    /// Some value is a variable: an `snprintf` format string and the variables it reads.
    Dynamic { format: String, args: Vec<DynArg> },
}

/// A variable that the `snprintf` call reads.
#[derive(Debug, PartialEq)]
pub struct DynArg {
    pub name: String,
    pub fmt: ArgFormat,
}

/// The printf-family format of a variable.
#[derive(Debug, Clone, Copy, PartialEq, Eq, Structural)]
pub enum ArgFormat {
    I64,
    F64,
    Str,
    Bool,
}

/// Why a dict cannot be planned.
pub enum JsonFailure {
    KeyNotString,
    ValueTypeUnsupported(TypeAnnotation),
    ValueUnsupported(Expression),
}

/// The plan of a dict, in terms of character sequences.
pub enum PlanShape {
    Static(Seq<char>),
    Dynamic(Seq<char>, Seq<(Seq<char>, ArgFormat)>),
}

/// An int, float, string, bool or `None` literal.
pub open spec fn literal(e: Expression) -> bool {
    e is IntLiteral || e is FloatLiteral || e is StringLiteral || e is BoolLiteral || e is NoneLiteral
}

/// `s` quoted as a JSON string.
pub open spec fn json_string(s: Seq<char>) -> Seq<char> {
    seq!['"'] + json_escaped(s) + seq!['"']
}

/// The JSON text of a literal.
pub open spec fn literal_json(e: Expression) -> Seq<char> {
    match e {
        Expression::IntLiteral(n) => int_text(n as int),
        Expression::FloatLiteral(t) => t@,
        Expression::StringLiteral(s) => json_string(s@),
        Expression::BoolLiteral(b) => if b { "true"@ } else { "false"@ },
        _ => "null"@,
    }
}

/// The format of a variable of type `ty`, when it has one.
pub open spec fn format_of(ty: TypeAnnotation) -> Option<ArgFormat> {
    match ty {
        TypeAnnotation::Int => Option::Some(ArgFormat::I64),
        TypeAnnotation::Float => Option::Some(ArgFormat::F64),
        TypeAnnotation::Str => Option::Some(ArgFormat::Str),
        TypeAnnotation::Bool => Option::Some(ArgFormat::Bool),
        _ => Option::None,
    }
}

/// The conversion specifier of a format: `%lld`, `%g`, `"%s"` or `%s`.
pub open spec fn specifier(f: ArgFormat) -> Seq<char> {
    match f {
        ArgFormat::I64 => "%lld"@,
        ArgFormat::F64 => "%g"@,
        ArgFormat::Str => "\"%s\""@,
        ArgFormat::Bool => "%s"@,
    }
}

/// The text of one dict value and the variable it reads, if any.
pub open spec fn value_piece(v: Expression) -> Result<(Seq<char>, Seq<(Seq<char>, ArgFormat)>), JsonFailure> {
    if literal(v) {
        Result::Ok((literal_json(v), Seq::empty()))
    } else {
        match v {
            Expression::Name { id, ty } => match format_of(ty) {
                Option::Some(f) => Result::Ok((specifier(f), seq![(id@, f)])),
                Option::None => Result::Err(JsonFailure::ValueTypeUnsupported(ty)),
            },
            _ => Result::Err(JsonFailure::ValueUnsupported(v)),
        }
    }
}

/// The first `n` entries, `"key": value` separated by `, `, and the variables they read.
pub open spec fn entries(keys: Seq<Expression>, values: Seq<Expression>, n: int) -> Result<
    (Seq<char>, Seq<(Seq<char>, ArgFormat)>),
    JsonFailure,
>
    decreases n,
{
    if n <= 0 {
        Result::Ok((Seq::empty(), Seq::empty()))
    } else {
        match entries(keys, values, n - 1) {
            Result::Err(f) => Result::Err(f),
            Result::Ok((body, args)) => match keys[n - 1] {
                Expression::StringLiteral(k) => match value_piece(values[n - 1]) {
                    Result::Ok((text, a)) => Result::Ok(
                        (
                            (if n > 1 { body + ", "@ } else { body }) + json_string(k@) + ": "@ + text,
                            args + a,
                        ),
                    ),
                    Result::Err(f) => Result::Err(f),
                },
                _ => Result::Err(JsonFailure::KeyNotString),
            },
        }
    }
}

/// The plan of a dict with these keys and values: the pairs are taken up to the shorter list;
/// the plan is static when every value is a literal.
pub open spec fn plan_of(keys: Seq<Expression>, values: Seq<Expression>) -> Result<PlanShape, JsonFailure> {
    let n = if keys.len() < values.len() { keys.len() } else { values.len() };
    match entries(keys, values, n as int) {
        Result::Err(f) => Result::Err(f),
        Result::Ok((body, args)) => Result::Ok(
            if forall|i: int| 0 <= i < values.len() ==> literal(#[trigger] values[i]) {
                PlanShape::Static(seq!['{'] + body + seq!['}'])
            } else {
                PlanShape::Dynamic(seq!['{'] + body + seq!['}'], args)
            },
        ),
    }
}

/// Entries read only the first `m` keys and values, so longer lists agree on them.
proof fn lemma_entries_prefix(keys: Seq<Expression>, values: Seq<Expression>, k: Expression, v: Expression, m: int)
    requires
        0 <= m <= keys.len(),
        m <= values.len(),
    ensures
        entries(keys.push(k), values.push(v), m) == entries(keys, values, m),
    decreases m,
{
    if m > 0 {
        lemma_entries_prefix(keys, values, k, v, m - 1);
        assert(keys.push(k)[m - 1] == keys[m - 1]);
        assert(values.push(v)[m - 1] == values[m - 1]);
    }
}

/// Adding the entry `"k": b` for a boolean literal `b` to a dict whose JSON is the constant
/// text `t` gives a constant text that ends in that entry, with `b` written `true` when it is
/// true and `false` when it is false.
pub proof fn law_static_json_bool_entry(keys: Seq<Expression>, values: Seq<Expression>, k: String, b: bool)
    requires
        keys.len() == values.len(),
        plan_of(keys, values) is Ok,
        plan_of(keys, values)->Ok_0 is Static,
    ensures
        ({
            let t = plan_of(keys, values)->Ok_0->Static_0;
            plan_of(keys.push(Expression::StringLiteral(k)), values.push(Expression::BoolLiteral(b))) == Result::<
                PlanShape,
                JsonFailure,
            >::Ok(
                PlanShape::Static(
                    t.drop_last() + (if keys.len() > 0 {
                        ", "@
                    } else {
                        Seq::<char>::empty()
                    }) + json_string(k@) + ": "@ + (if b {
                        "true"@
                    } else {
                        "false"@
                    }) + "}"@,
                ),
            )
        }),
{
    reveal_strlit("}");
    let n = keys.len() as int;
    let ks = keys.push(Expression::StringLiteral(k));
    let vs = values.push(Expression::BoolLiteral(b));
    lemma_entries_prefix(keys, values, Expression::StringLiteral(k), Expression::BoolLiteral(b), n);
    let body = entries(keys, values, n)->Ok_0.0;
    let t = plan_of(keys, values)->Ok_0->Static_0;
    assert(forall|i: int| 0 <= i < values.len() ==> literal(#[trigger] values[i]));
    assert(t == seq!['{'] + body + seq!['}']);
    assert(t.drop_last() =~= seq!['{'] + body);
    assert(ks[n] == Expression::StringLiteral(k));
    assert(vs[n] == Expression::BoolLiteral(b));
    assert forall|i: int| 0 <= i < vs.len() implies literal(#[trigger] vs[i]) by {
        if i < n {
            assert(vs[i] == values[i]);
        }
    }
    let text = if b { "true"@ } else { "false"@ };
    let body2 = (if n + 1 > 1 { body + ", "@ } else { body }) + json_string(k@) + ": "@ + text;
    assert(entries(ks, vs, n + 1)->Ok_0.0 == body2);
    if n > 0 {
        assert(seq!['{'] + body2 + seq!['}'] =~= t.drop_last() + ", "@ + json_string(k@) + ": "@ + text + "}"@);
    } else {
        assert(seq!['{'] + body2 + seq!['}'] =~= t.drop_last() + Seq::<char>::empty() + json_string(k@) + ": "@
            + text + "}"@);
    }
}

/// `e` is the error that reports failure `f`.
pub open spec fn json_error(e: CodegenError, f: JsonFailure) -> bool {
    match f {
        JsonFailure::KeyNotString => e matches CodegenError::UnsupportedExpression(m) && m@
            == "dict key must be a string literal"@,
        JsonFailure::ValueTypeUnsupported(ty) => e matches CodegenError::UnsupportedType(m) && m@
            == "dynamic dict value type: "@ + type_debug(ty),
        JsonFailure::ValueUnsupported(v) => e matches CodegenError::UnsupportedExpression(m) && m@
            == "unsupported dict value expression: "@ + expression_debug(v),
    }
}

/// The variables of a plan, as character sequences.
pub open spec fn arg_views(args: Seq<DynArg>) -> Seq<(Seq<char>, ArgFormat)> {
    args.map_values(|a: DynArg| (a.name@, a.fmt))
}

/// `r` is the plan `p`, or the error for its failure.
pub open spec fn plan_matches(r: Result<JsonPlan, CodegenError>, p: Result<PlanShape, JsonFailure>) -> bool {
    match p {
        Result::Ok(PlanShape::Static(t)) => r matches Ok(JsonPlan::Static(s)) && s@ == t,
        Result::Ok(PlanShape::Dynamic(t, a)) => r matches Ok(JsonPlan::Dynamic { format, args })
            && format@ == t && arg_views(args@) == a,
        Result::Err(f) => r matches Err(e) && json_error(e, f),
    }
}

fn is_literal(expr: &Expression) -> (r: bool)
    ensures
        r == literal(*expr),
{
    matches!(
        expr,
        Expression::IntLiteral(_) | Expression::FloatLiteral(_) | Expression::StringLiteral(_)
            | Expression::BoolLiteral(_) | Expression::NoneLiteral
    )
}

fn extract_string_literal(expr: &Expression) -> (r: Result<&String, CodegenError>)
    ensures
        match *expr {
            Expression::StringLiteral(s) => r == Ok::<&String, CodegenError>(&s),
            _ => r matches Err(e) && json_error(e, JsonFailure::KeyNotString),
        },
{
    match expr {
        Expression::StringLiteral(s) => Ok(s),
        _ => {
            proof { reveal_strlit("dict key must be a string literal"); }
            Err(CodegenError::UnsupportedExpression("dict key must be a string literal".to_string()))
        },
    }
}

/// Escapes a string for JSON: backslash, quote, newline, carriage return and tab.
pub fn escape_json(s: &str) -> (r: String)
    ensures
        r@ == json_escaped(s@),
{
    let mut out = String::new();
    push_json_escaped(&mut out, s);
    out
}

/// Appends the JSON text of a literal.
fn push_literal(out: &mut String, v: &Expression)
    requires
        literal(*v),
    ensures
        final(out)@ == old(out)@ + literal_json(*v),
{
    proof {
        reveal_strlit("true");
        reveal_strlit("false");
        reveal_strlit("null");
    }
    match v {
        Expression::IntLiteral(n) => out.append(i64_text(*n).as_str()),
        Expression::FloatLiteral(t) => out.append(t.as_str()),
        Expression::StringLiteral(s) => {
            crate::text::push_char(out, '"');
            push_json_escaped(out, s.as_str());
            crate::text::push_char(out, '"');
        },
        Expression::BoolLiteral(b) => out.append(if *b { "true" } else { "false" }),
        _ => out.append("null"),
    }
}

/// Appends the text of one value and collects the variable it reads.
fn push_value(out: &mut String, args: &mut Vec<DynArg>, v: &Expression) -> (r: Result<(), CodegenError>)
    ensures
        match value_piece(*v) {
            Result::Ok((t, a)) => r is Ok && final(out)@ == old(out)@ + t && arg_views(final(args)@)
                == arg_views(old(args)@) + a,
            Result::Err(f) => r matches Err(e) && json_error(e, f),
        },
{
    if is_literal(v) {
        push_literal(out, v);
        assert(arg_views(args@) + Seq::<(Seq<char>, ArgFormat)>::empty() == arg_views(args@));
        return Ok(());
    }
    match v {
        Expression::Name { id, ty } => {
            proof {
                reveal_strlit("%lld");
                reveal_strlit("%g");
                reveal_strlit("\"%s\"");
                reveal_strlit("%s");
            }
            let (fmt, spec) = match ty {
                TypeAnnotation::Int => (ArgFormat::I64, "%lld"),
                TypeAnnotation::Float => (ArgFormat::F64, "%g"),
                TypeAnnotation::Str => (ArgFormat::Str, "\"%s\""),
                TypeAnnotation::Bool => (ArgFormat::Bool, "%s"),
                _ => {
                    let mut m = "dynamic dict value type: ".to_string();
                    m.append(render_type(ty).as_str());
                    return Err(CodegenError::UnsupportedType(m));
                },
            };
            out.append(spec);
            let ghost before = args@;
            args.push(DynArg { name: id.clone(), fmt });
            assert(arg_views(args@) == arg_views(before).push((id@, fmt)));
            assert(arg_views(before).push((id@, fmt)) == arg_views(before) + seq![(id@, fmt)]);
            Ok(())
        },
        _ => {
            let mut m = "unsupported dict value expression: ".to_string();
            m.append(debug_expression(v).as_str());
            Err(CodegenError::UnsupportedExpression(m))
        },
    }
}

/// Plans the JSON emission of a dict expression: a constant when every value is a literal,
/// else an `snprintf` format string with the variables it reads.
pub fn plan_dict(keys: &[Expression], values: &[Expression]) -> (r: Result<JsonPlan, CodegenError>)
    ensures
        plan_matches(r, plan_of(keys@, values@)),
{
    let mut all_literal = true;
    let mut i: usize = 0;
    while i < values.len()
        invariant
            i <= values@.len(),
            all_literal == forall|j: int| 0 <= j < i ==> literal(#[trigger] values@[j]),
        decreases values@.len() - i,
    {
        if !is_literal(&values[i]) {
            all_literal = false;
        }
        i = i + 1;
    }
    let n = if keys.len() < values.len() { keys.len() } else { values.len() };
    let mut body = String::new();
    let mut args: Vec<DynArg> = Vec::new();
    let mut k: usize = 0;
    assert(arg_views(args@) == Seq::<(Seq<char>, ArgFormat)>::empty());
    assert(body@ == Seq::<char>::empty());
    while k < n
        invariant
            k <= n,
            n == (if keys@.len() < values@.len() { keys@.len() } else { values@.len() }),
            all_literal == forall|j: int| 0 <= j < values@.len() ==> literal(#[trigger] values@[j]),
            n <= keys@.len(),
            n <= values@.len(),
            entries(keys@, values@, k as int) == Result::<(Seq<char>, Seq<(Seq<char>, ArgFormat)>), JsonFailure>::Ok(
                (body@, arg_views(args@)),
            ),
        decreases n - k,
    {
        proof { reveal_strlit(", "); reveal_strlit(": "); }
        let ghost b0 = body@;
        let ghost a0 = arg_views(args@);
        if k > 0 {
            body.append(", ");
        }
        let ghost prev_body = body@;
        let key = match extract_string_literal(&keys[k]) {
            Ok(s) => s,
            Err(e) => {
                assert(entries(keys@, values@, (k + 1) as int) == Result::<
                    (Seq<char>, Seq<(Seq<char>, ArgFormat)>),
                    JsonFailure,
                >::Err(JsonFailure::KeyNotString));
                proof { lemma_entries_fail(keys@, values@, (k + 1) as int, n as int); }
                return Err(e);
            },
        };
        crate::text::push_char(&mut body, '"');
        push_json_escaped(&mut body, key.as_str());
        crate::text::push_char(&mut body, '"');
        body.append(": ");
        let ghost key_part = body@;
        match push_value(&mut body, &mut args, &values[k]) {
            Ok(()) => {
                proof {
                    let (t, a) = value_piece(values@[k as int])->Ok_0;
                    let sep = if k + 1 > 1 { b0 + ", "@ } else { b0 };
                    assert(key_part == sep + json_string(key@) + ": "@);
                    assert(body@ == key_part + t);
                    assert(body@ =~= sep + json_string(key@) + ": "@ + t);
                    assert(arg_views(args@) == a0 + a);
                }
            },
            Err(e) => {
                assert(entries(keys@, values@, (k + 1) as int) matches Result::Err(f) && json_error(e, f));
                proof { lemma_entries_fail(keys@, values@, (k + 1) as int, n as int); }
                return Err(e);
            },
        }
        k = k + 1;
    }
    let mut text = "{".to_string();
    text.append(body.as_str());
    crate::text::push_char(&mut text, '}');
    proof { reveal_strlit("{"); }
    assert(text@ =~= seq!['{'] + body@ + seq!['}']);
    if all_literal {
        Ok(JsonPlan::Static(text))
    } else {
        Ok(JsonPlan::Dynamic { format: text, args })
    }
}

/// A failure among the first `k` entries is the failure of the first `n`.
proof fn lemma_entries_fail(keys: Seq<Expression>, values: Seq<Expression>, k: int, n: int)
    requires
        0 <= k <= n,
        entries(keys, values, k) is Err,
    ensures
        entries(keys, values, n) == entries(keys, values, k),
    decreases n - k,
{
    if k < n {
        lemma_entries_fail(keys, values, k + 1, n);
    }
}

} // verus!
