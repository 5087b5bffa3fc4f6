//! Renderings of values in the `{:?}` notation that error messages quote.

use vstd::prelude::*;

use crate::hir::{BinaryOp, Comprehension, Expression, FStringPart, Keyword, TypeAnnotation, UnaryOp};
use crate::text::{chars_of, i64_text, find_char, first_index, int_text, lemma_first_index, string_from, sub_chars, u64_digits};

verus! {

broadcast use vstd::string::group_string_axioms;

/// What `<str as Debug>::fmt` writes for `s`: the string quoted, with escapes.
pub uninterp spec fn str_debug(s: Seq<char>) -> Seq<char>;

/// Calls `<str as Debug>::fmt` through `format!("{:?}")`; the result is `str_debug` of `s`.
#[verifier::external_body]
fn debug_str(s: &str) -> (r: String)
    ensures
        r@ == str_debug(s@),
{
    format!("{:?}", s)
}

/// The number of `0`s that `s` starts with.
pub open spec fn leading_zeros(s: Seq<char>) -> nat
    decreases s.len(),
{
    if s.len() > 0 && s[0] == '0' {
        1 + leading_zeros(s.drop_first())
    } else {
        0
    }
}

/// The length of the digits `d` without their trailing `0`s, keeping at least one digit.
pub open spec fn kept_digits(d: Seq<char>) -> nat
    decreases d.len(),
{
    if d.len() > 1 && d.last() == '0' {
        kept_digits(d.drop_last())
    } else {
        d.len()
    }
}

/// Scientific notation of the significant digits `d` times ten to the `e`: the first digit,
/// the others after a `.` when any remain once trailing zeros are dropped, then `e` and the
/// exponent.
pub open spec fn scientific(d: Seq<char>, e: int) -> Seq<char> {
    let k = kept_digits(d) as int;
    seq![d[0]] + (if k > 1 {
        seq!['.'] + d.subrange(1, k)
    } else {
        Seq::empty()
    }) + "e"@ + int_text(e)
}

/// Only decimal digits and `.` occur in `s`.
pub open spec fn plain_decimal(s: Seq<char>) -> bool {
    forall|i: int| 0 <= i < s.len() ==> ('0' <= #[trigger] s[i] <= '9' || s[i] == '.')
}

/// What `{:?}` writes for the `f64` that `{}` writes as `t`. Numbers of magnitude at least
/// `1e16`, and non-zero ones below `1e-4`, are written in scientific notation; other numbers
/// keep their decimal text, with `.0` added when it has no fractional part. Other texts (`inf`,
/// `NaN`) stay as they are.
pub open spec fn float_debug(t: Seq<char>) -> Seq<char> {
    let neg = t.len() > 0 && t[0] == '-';
    let body = if neg { t.drop_first() } else { t };
    let sign = if neg { seq!['-'] } else { Seq::<char>::empty() };
    if body.len() == 0 || !plain_decimal(body) {
        t
    } else {
        match first_index(body, '.') {
            Option::None => if body.len() > 16 {
                sign + scientific(body, body.len() - 1)
            } else {
                t + ".0"@
            },
            Option::Some(p) => {
                let whole = body.take(p);
                let frac = body.skip(p + 1);
                let z = leading_zeros(frac) as int;
                if whole.len() > 16 {
                    sign + scientific(whole + frac, whole.len() - 1)
                } else if whole == seq!['0'] && z >= 4 && z < frac.len() {
                    sign + scientific(frac.skip(z), -(z + 1))
                } else {
                    t
                }
            },
        }
    }
}

/// Counts the `0`s that `v` starts with.
fn count_leading_zeros(v: &[char]) -> (r: usize)
    ensures
        r == leading_zeros(v@),
{
    let mut i: usize = 0;
    assert(v@.skip(0) =~= v@);
    while i < v.len() && v[i] == '0'
        invariant
            i <= v@.len(),
            leading_zeros(v@) == i + leading_zeros(v@.skip(i as int)),
        decreases v@.len() - i,
    {
        assert(v@.skip(i as int)[0] == v@[i as int]);
        assert(v@.skip(i as int).drop_first() =~= v@.skip(i + 1));
        i = i + 1;
    }
    if i < v.len() {
        assert(v@.skip(i as int)[0] == v@[i as int]);
    } else {
        assert(v@.skip(i as int).len() == 0);
    }
    i
}

/// Writes the digits `d` times ten to the power `-e_mag` (when `e_neg`) or `e_mag` in
/// scientific notation.
fn write_scientific(d: &[char], e_neg: bool, e_mag: usize) -> (r: String)
    requires
        d@.len() > 0,
        e_neg ==> e_mag > 0,
    ensures
        r@ == scientific(d@, if e_neg { -(e_mag as int) } else { e_mag as int }),
{
    let mut k: usize = d.len();
    assert(d@.take(k as int) =~= d@);
    while k > 1 && d[k - 1] == '0'
        invariant
            1 <= k <= d@.len(),
            kept_digits(d@) == kept_digits(d@.take(k as int)),
        decreases k,
    {
        assert(d@.take(k as int).drop_last() =~= d@.take(k - 1));
        k = k - 1;
    }
    assert(kept_digits(d@.take(k as int)) == k);
    let mut out: Vec<char> = Vec::new();
    out.push(d[0]);
    if k > 1 {
        out.push('.');
        let rest = sub_chars(d, 1, k);
        let mut j: usize = 0;
        let ghost before = out@;
        while j < rest.len()
            invariant
                j <= rest@.len(),
                out@ == before + rest@.take(j as int),
            decreases rest@.len() - j,
        {
            out.push(rest[j]);
            assert(rest@.take(j + 1) =~= rest@.take(j as int).push(rest@[j as int]));
            j = j + 1;
        }
        assert(rest@.take(rest@.len() as int) =~= rest@);
    }
    let mut s = string_from(out.as_slice());
    s.append("e");
    if e_neg {
        s.append("-");
    }
    let mag = string_from(u64_digits(e_mag as u64).as_slice());
    s.append(mag.as_str());
    proof {
        reveal_strlit("e");
        reveal_strlit("-");
        if k > 1 {
            assert(out@ =~= seq![d@[0]] + (seq!['.'] + d@.subrange(1, k as int)));
        } else {
            assert(out@ =~= seq![d@[0]] + Seq::<char>::empty());
        }
    }
    s
}

/// Whether only decimal digits and `.` occur in `v`.
fn is_plain_decimal(v: &[char]) -> (r: bool)
    ensures
        r == plain_decimal(v@),
{
    let mut i: usize = 0;
    while i < v.len()
        invariant
            i <= v@.len(),
            forall|j: int| 0 <= j < i ==> ('0' <= #[trigger] v@[j] <= '9' || v@[j] == '.'),
        decreases v@.len() - i,
    {
        let c = v[i];
        if !(('0' <= c && c <= '9') || c == '.') {
            return false;
        }
        i = i + 1;
    }
    true
}

/// Writes the `{:?}` text of the `f64` whose `{}` text is `t`, as `float_debug` describes.
pub fn render_float(t: &str) -> (r: String)
    ensures
        r@ == float_debug(t@),
{
    let v = chars_of(t);
    let neg = v.len() > 0 && v[0] == '-';
    let start: usize = if neg { 1 } else { 0 };
    let body = sub_chars(v.as_slice(), start, v.len());
    assert(body@ =~= if neg { t@.drop_first() } else { t@ });
    let mut out: String = if neg { "-".to_string() } else { String::new() };
    proof {
        reveal_strlit("-");
        reveal_strlit("");
        reveal_strlit(".0");
    }
    let ghost sign = if neg { seq!['-'] } else { Seq::<char>::empty() };
    assert(out@ == sign);
    if body.len() == 0 || !is_plain_decimal(body.as_slice()) {
        return string_from(v.as_slice());
    }
    match find_char(body.as_slice(), '.') {
        None => {
            if body.len() > 16 {
                let sci = write_scientific(body.as_slice(), false, body.len() - 1);
                out.append(sci.as_str());
                out
            } else {
                let mut r = string_from(v.as_slice());
                r.append(".0");
                r
            }
        },
        Some(p) => {
            proof { lemma_first_index(body@, '.'); }
            let whole = sub_chars(body.as_slice(), 0, p);
            let frac = sub_chars(body.as_slice(), p + 1, body.len());
            assert(whole@ =~= body@.take(p as int));
            assert(frac@ =~= body@.skip(p + 1));
            let z = count_leading_zeros(frac.as_slice());
            if whole.len() > 16 {
                let mut digits = whole.clone();
                let mut j: usize = 0;
                while j < frac.len()
                    invariant
                        j <= frac@.len(),
                        digits@ == whole@ + frac@.take(j as int),
                    decreases frac@.len() - j,
                {
                    digits.push(frac[j]);
                    assert(frac@.take(j + 1) =~= frac@.take(j as int).push(frac@[j as int]));
                    j = j + 1;
                }
                assert(frac@.take(frac@.len() as int) =~= frac@);
                let sci = write_scientific(digits.as_slice(), false, whole.len() - 1);
                out.append(sci.as_str());
                out
            } else if whole.len() == 1 && whole[0] == '0' && z >= 4 && z < frac.len() {
                assert(whole@ =~= seq!['0']);
                let small = sub_chars(frac.as_slice(), z, frac.len());
                assert(small@ =~= frac@.skip(z as int));
                let sci = write_scientific(small.as_slice(), true, z + 1);
                out.append(sci.as_str());
                out
            } else {
                assert(!(whole@ == seq!['0'] && z >= 4 && z < frac@.len()) || whole@.len() > 16);
                string_from(v.as_slice())
            }
        },
    }
}

/// The variant name of a binary operator, as `{:?}` writes it.
pub open spec fn binop_debug(op: BinaryOp) -> Seq<char> {
    match op {
        BinaryOp::Add => "Add"@,
        BinaryOp::Sub => "Sub"@,
        BinaryOp::Mul => "Mul"@,
        BinaryOp::Div => "Div"@,
        BinaryOp::FloorDiv => "FloorDiv"@,
        BinaryOp::Mod => "Mod"@,
        BinaryOp::Pow => "Pow"@,
        BinaryOp::Eq => "Eq"@,
        BinaryOp::NotEq => "NotEq"@,
        BinaryOp::Lt => "Lt"@,
        BinaryOp::LtEq => "LtEq"@,
        BinaryOp::Gt => "Gt"@,
        BinaryOp::GtEq => "GtEq"@,
        BinaryOp::And => "And"@,
        BinaryOp::Or => "Or"@,
        BinaryOp::BitAnd => "BitAnd"@,
        BinaryOp::BitOr => "BitOr"@,
        BinaryOp::BitXor => "BitXor"@,
        BinaryOp::LShift => "LShift"@,
        BinaryOp::RShift => "RShift"@,
    }
}

/// The variant name of a unary operator, as `{:?}` writes it.
pub open spec fn unop_debug(op: UnaryOp) -> Seq<char> {
    match op {
        UnaryOp::Neg => "Neg"@,
        UnaryOp::Not => "Not"@,
        UnaryOp::BitNot => "BitNot"@,
        UnaryOp::Pos => "Pos"@,
    }
}

/// `true` or `false`.
pub open spec fn bool_debug(b: bool) -> Seq<char> {
    if b {
        "true"@
    } else {
        "false"@
    }
}

/// `None`, or `Some` of the quoted string.
pub open spec fn opt_str_debug(o: Option<String>) -> Seq<char> {
    match o {
        Option::Some(s) => "Some("@ + str_debug(s@) + ")"@,
        Option::None => "None"@,
    }
}

/// The first `n` strings of `ss`, quoted and separated by `, `.
pub open spec fn strings_items(ss: Seq<String>, n: int) -> Seq<char>
    decreases n,
{
    if n <= 0 || n > ss.len() {
        Seq::empty()
    } else if n == 1 {
        str_debug(ss[0]@)
    } else {
        strings_items(ss, n - 1) + ", "@ + str_debug(ss[n - 1]@)
    }
}

/// The `{:?}` rendering of a list of expressions: `[a, b, c]`.
pub open spec fn exprs_debug(es: Seq<Expression>) -> Seq<char>
    decreases es,
{
    "["@ + exprs_items(es, es.len() as int) + "]"@
}

/// The first `n` expressions of `es`, rendered and separated by `, `.
pub open spec fn exprs_items(es: Seq<Expression>, n: int) -> Seq<char>
    decreases es, n,
{
    if n <= 0 || n > es.len() {
        Seq::empty()
    } else if n == 1 {
        expression_debug(es[0])
    } else {
        exprs_items(es, n - 1) + ", "@ + expression_debug(es[n - 1])
    }
}

/// The `{:?}` rendering of a keyword argument.
pub open spec fn keyword_debug(k: Keyword) -> Seq<char>
    decreases k,
{
    "Keyword { name: "@ + opt_str_debug(k.name) + ", value: "@ + expression_debug(k.value) + " }"@
}

/// The first `n` keyword arguments of `ks`, rendered and separated by `, `.
pub open spec fn keywords_items(ks: Seq<Keyword>, n: int) -> Seq<char>
    decreases ks, n,
{
    if n <= 0 || n > ks.len() {
        Seq::empty()
    } else if n == 1 {
        keyword_debug(ks[0])
    } else {
        keywords_items(ks, n - 1) + ", "@ + keyword_debug(ks[n - 1])
    }
}

/// The `{:?}` rendering of a comprehension clause.
pub open spec fn generator_debug(g: Comprehension) -> Seq<char>
    decreases g,
{
    "Comprehension { target: "@ + expression_debug(*g.target) + ", iter: "@ + expression_debug(*g.iter)
        + ", conditions: "@ + exprs_debug(g.conditions@) + " }"@
}

/// The first `n` comprehension clauses of `gs`, rendered and separated by `, `.
pub open spec fn generators_items(gs: Seq<Comprehension>, n: int) -> Seq<char>
    decreases gs, n,
{
    if n <= 0 || n > gs.len() {
        Seq::empty()
    } else if n == 1 {
        generator_debug(gs[0])
    } else {
        generators_items(gs, n - 1) + ", "@ + generator_debug(gs[n - 1])
    }
}

/// The `{:?}` rendering of a piece of an f-string.
pub open spec fn part_debug(p: FStringPart) -> Seq<char>
    decreases p,
{
    match p {
        FStringPart::Literal(s) => "Literal("@ + str_debug(s@) + ")"@,
        FStringPart::Expression(e) => "Expression("@ + expression_debug(*e) + ")"@,
    }
}

/// The first `n` pieces of `ps`, rendered and separated by `, `.
pub open spec fn parts_items(ps: Seq<FStringPart>, n: int) -> Seq<char>
    decreases ps, n,
{
    if n <= 0 || n > ps.len() {
        Seq::empty()
    } else if n == 1 {
        part_debug(ps[0])
    } else {
        parts_items(ps, n - 1) + ", "@ + part_debug(ps[n - 1])
    }
}

/// What the derived `Debug` of an expression writes, as the expression's Python front end
/// defines it: a float literal holds an `f64` (written as `float_debug` of its text), and the
/// types are written by `type_debug`.
pub open spec fn expression_debug(e: Expression) -> Seq<char>
    decreases e, 0int,
{
    match e {
        Expression::IntLiteral(n) => "IntLiteral("@ + int_text(n as int) + ")"@,
        Expression::FloatLiteral(t) => "FloatLiteral("@ + float_debug(t@) + ")"@,
        Expression::StringLiteral(s) => "StringLiteral("@ + str_debug(s@) + ")"@,
        Expression::BoolLiteral(b) => "BoolLiteral("@ + bool_debug(b) + ")"@,
        Expression::NoneLiteral => "NoneLiteral"@,
        Expression::Name { id, ty } => "Name { id: "@ + str_debug(id@) + ", ty: "@ + type_debug(ty) + " }"@,
        Expression::BinaryOp { op, left, right, ty } => "BinaryOp { op: "@ + binop_debug(op) + ", left: "@
            + expression_debug(*left) + ", right: "@ + expression_debug(*right) + ", ty: "@ + type_debug(ty)
            + " }"@,
        Expression::UnaryOp { op, operand, ty } => "UnaryOp { op: "@ + unop_debug(op) + ", operand: "@
            + expression_debug(*operand) + ", ty: "@ + type_debug(ty) + " }"@,
        Expression::Call { func, args, keywords, ty } => "Call { func: "@ + expression_debug(*func)
            + ", args: "@ + exprs_debug(args@) + ", keywords: ["@ + keywords_items(
            keywords@,
            keywords@.len() as int,
        ) + "], ty: "@ + type_debug(ty) + " }"@,
        Expression::Attribute { value, attr, ty } => "Attribute { value: "@ + expression_debug(*value)
            + ", attr: "@ + str_debug(attr@) + ", ty: "@ + type_debug(ty) + " }"@,
        Expression::Subscript { value, index, ty } => "Subscript { value: "@ + expression_debug(*value)
            + ", index: "@ + expression_debug(*index) + ", ty: "@ + type_debug(ty) + " }"@,
        Expression::List { elements, ty } => "List { elements: "@ + exprs_debug(elements@) + ", ty: "@
            + type_debug(ty) + " }"@,
        Expression::Dict { keys, values, ty } => "Dict { keys: "@ + exprs_debug(keys@) + ", values: "@
            + exprs_debug(values@) + ", ty: "@ + type_debug(ty) + " }"@,
        Expression::Tuple { elements, ty } => "Tuple { elements: "@ + exprs_debug(elements@) + ", ty: "@
            + type_debug(ty) + " }"@,
        Expression::IfExpr { test, body, orelse, ty } => "IfExpr { test: "@ + expression_debug(*test)
            + ", body: "@ + expression_debug(*body) + ", orelse: "@ + expression_debug(*orelse) + ", ty: "@
            + type_debug(ty) + " }"@,
        Expression::Lambda { params, body, ty } => "Lambda { params: ["@ + strings_items(
            params@,
            params@.len() as int,
        ) + "], body: "@ + expression_debug(*body) + ", ty: "@ + type_debug(ty) + " }"@,
        Expression::Await { value, ty } => "Await { value: "@ + expression_debug(*value) + ", ty: "@
            + type_debug(ty) + " }"@,
        Expression::FString { parts, ty } => "FString { parts: ["@ + parts_items(parts@, parts@.len() as int)
            + "], ty: "@ + type_debug(ty) + " }"@,
        Expression::ListComp { element, generators, ty } => "ListComp { element: "@ + expression_debug(
            *element,
        ) + ", generators: ["@ + generators_items(generators@, generators@.len() as int) + "], ty: "@
            + type_debug(ty) + " }"@,
        Expression::DictComp { key, value, generators, ty } => "DictComp { key: "@ + expression_debug(*key)
            + ", value: "@ + expression_debug(*value) + ", generators: ["@ + generators_items(
            generators@,
            generators@.len() as int,
        ) + "], ty: "@ + type_debug(ty) + " }"@,
    }
}

/// Writes the variant name of a binary operator.
fn render_binop(op: BinaryOp) -> (r: String)
    ensures
        r@ == binop_debug(op),
{
    proof {
        reveal_strlit("Add");
        reveal_strlit("Sub");
        reveal_strlit("Mul");
        reveal_strlit("Div");
        reveal_strlit("FloorDiv");
        reveal_strlit("Mod");
        reveal_strlit("Pow");
        reveal_strlit("Eq");
        reveal_strlit("NotEq");
        reveal_strlit("Lt");
        reveal_strlit("LtEq");
        reveal_strlit("Gt");
        reveal_strlit("GtEq");
        reveal_strlit("And");
        reveal_strlit("Or");
        reveal_strlit("BitAnd");
        reveal_strlit("BitOr");
        reveal_strlit("BitXor");
        reveal_strlit("LShift");
        reveal_strlit("RShift");
    }
    match op {
        BinaryOp::Add => "Add".to_string(),
        BinaryOp::Sub => "Sub".to_string(),
        BinaryOp::Mul => "Mul".to_string(),
        BinaryOp::Div => "Div".to_string(),
        BinaryOp::FloorDiv => "FloorDiv".to_string(),
        BinaryOp::Mod => "Mod".to_string(),
        BinaryOp::Pow => "Pow".to_string(),
        BinaryOp::Eq => "Eq".to_string(),
        BinaryOp::NotEq => "NotEq".to_string(),
        BinaryOp::Lt => "Lt".to_string(),
        BinaryOp::LtEq => "LtEq".to_string(),
        BinaryOp::Gt => "Gt".to_string(),
        BinaryOp::GtEq => "GtEq".to_string(),
        BinaryOp::And => "And".to_string(),
        BinaryOp::Or => "Or".to_string(),
        BinaryOp::BitAnd => "BitAnd".to_string(),
        BinaryOp::BitOr => "BitOr".to_string(),
        BinaryOp::BitXor => "BitXor".to_string(),
        BinaryOp::LShift => "LShift".to_string(),
        BinaryOp::RShift => "RShift".to_string(),
    }
}

/// Writes the variant name of a unary operator.
fn render_unop(op: UnaryOp) -> (r: String)
    ensures
        r@ == unop_debug(op),
{
    proof {
        reveal_strlit("Neg");
        reveal_strlit("Not");
        reveal_strlit("BitNot");
        reveal_strlit("Pos");
    }
    match op {
        UnaryOp::Neg => "Neg".to_string(),
        UnaryOp::Not => "Not".to_string(),
        UnaryOp::BitNot => "BitNot".to_string(),
        UnaryOp::Pos => "Pos".to_string(),
    }
}

/// Writes an optional string in `{:?}` notation.
fn render_opt_str(o: &Option<String>) -> (r: String)
    ensures
        r@ == opt_str_debug(*o),
{
    proof {
        reveal_strlit("None");
    }
    match o {
        Some(x) => wrap("Some(", debug_str(x.as_str()), ")"),
        None => "None".to_string(),
    }
}

/// Writes strings quoted and separated by `, `.
fn render_strings_items(ss: &Vec<String>) -> (r: String)
    ensures
        r@ == strings_items(ss@, ss@.len() as int),
{
    let mut out = String::new();
    let mut i: usize = 0;
    proof {
        reveal_strlit("");
    }
    while i < ss.len()
        invariant
            i <= ss@.len(),
            out@ == strings_items(ss@, i as int),
        decreases ss@.len() - i,
    {
        if i > 0 {
            out.append(", ");
        }
        let item = debug_str(ss[i].as_str());
        out.append(item.as_str());
        i = i + 1;
    }
    out
}

/// Writes a list of expressions in `{:?}` notation.
fn render_exprs(es: &Vec<Expression>) -> (r: String)
    ensures
        r@ == exprs_debug(es@),
    decreases es, 1int,
{
    let mut out = "[".to_string();
    let mut i: usize = 0;
    proof {
        reveal_strlit("[");
    }
    while i < es.len()
        invariant
            i <= es@.len(),
            out@ == "["@ + exprs_items(es@, i as int),
        decreases es@.len() - i,
    {
        assert(decreases_to!(es => es@[i as int]));
        if i > 0 {
            out.append(", ");
        }
        let item = debug_expression(&es[i]);
        out.append(item.as_str());
        i = i + 1;
    }
    out.append("]");
    out
}

/// Writes keyword arguments in `{:?}` notation, separated by `, `.
fn render_keywords_items(ks: &Vec<Keyword>) -> (r: String)
    ensures
        r@ == keywords_items(ks@, ks@.len() as int),
    decreases ks, 1int,
{
    let mut out = String::new();
    let mut i: usize = 0;
    proof {
        reveal_strlit("");
    }
    while i < ks.len()
        invariant
            i <= ks@.len(),
            out@ == keywords_items(ks@, i as int),
        decreases ks@.len() - i,
    {
        assert(decreases_to!(ks => ks@[i as int]));
        assert(decreases_to!(ks@[i as int] => ks@[i as int].value));
        if i > 0 {
            out.append(", ");
        }
        let k = &ks[i];
        let mut item = "Keyword { name: ".to_string();
        item.append(render_opt_str(&k.name).as_str());
        item.append(", value: ");
        item.append(debug_expression(&k.value).as_str());
        item.append(" }");
        assert(item@ == keyword_debug(ks@[i as int]));
        out.append(item.as_str());
        proof {
            if i > 0 {
                assert(out@ =~= keywords_items(ks@, i as int) + ", "@ + keyword_debug(ks@[i as int]));
            } else {
                assert(out@ =~= keyword_debug(ks@[0]));
            }
        }
        i = i + 1;
    }
    out
}

/// Writes comprehension clauses in `{:?}` notation, separated by `, `.
fn render_generators_items(gs: &Vec<Comprehension>) -> (r: String)
    ensures
        r@ == generators_items(gs@, gs@.len() as int),
    decreases gs, 1int,
{
    let mut out = String::new();
    let mut i: usize = 0;
    proof {
        reveal_strlit("");
    }
    while i < gs.len()
        invariant
            i <= gs@.len(),
            out@ == generators_items(gs@, i as int),
        decreases gs@.len() - i,
    {
        assert(decreases_to!(gs => gs@[i as int]));
        assert(decreases_to!(gs@[i as int] => gs@[i as int].target));
        assert(decreases_to!(gs@[i as int] => gs@[i as int].iter));
        assert(decreases_to!(gs@[i as int] => gs@[i as int].conditions));
        if i > 0 {
            out.append(", ");
        }
        let g = &gs[i];
        let mut item = "Comprehension { target: ".to_string();
        item.append(debug_expression(&g.target).as_str());
        item.append(", iter: ");
        item.append(debug_expression(&g.iter).as_str());
        item.append(", conditions: ");
        item.append(render_exprs(&g.conditions).as_str());
        item.append(" }");
        assert(item@ == generator_debug(gs@[i as int]));
        out.append(item.as_str());
        proof {
            if i > 0 {
                assert(out@ =~= generators_items(gs@, i as int) + ", "@ + generator_debug(gs@[i as int]));
            } else {
                assert(out@ =~= generator_debug(gs@[0]));
            }
        }
        i = i + 1;
    }
    out
}

/// Writes pieces of an f-string in `{:?}` notation, separated by `, `.
fn render_parts_items(ps: &Vec<FStringPart>) -> (r: String)
    ensures
        r@ == parts_items(ps@, ps@.len() as int),
    decreases ps, 1int,
{
    let mut out = String::new();
    let mut i: usize = 0;
    proof {
        reveal_strlit("");
    }
    while i < ps.len()
        invariant
            i <= ps@.len(),
            out@ == parts_items(ps@, i as int),
        decreases ps@.len() - i,
    {
        assert(decreases_to!(ps => ps@[i as int]));
        if i > 0 {
            out.append(", ");
        }
        let item = match &ps[i] {
            FStringPart::Literal(x) => wrap("Literal(", debug_str(x.as_str()), ")"),
            FStringPart::Expression(b) => {
                assert(decreases_to!(ps@[i as int] => *b));
                wrap("Expression(", debug_expression(b), ")")
            },
        };
        assert(item@ == part_debug(ps@[i as int]));
        out.append(item.as_str());
        proof {
            if i > 0 {
                assert(out@ =~= parts_items(ps@, i as int) + ", "@ + part_debug(ps@[i as int]));
            } else {
                assert(out@ =~= part_debug(ps@[0]));
            }
        }
        i = i + 1;
    }
    out
}

/// Writes an expression as its derived `Debug` writes it, per `expression_debug`.
pub(crate) fn debug_expression(e: &Expression) -> (r: String)
    ensures
        r@ == expression_debug(*e),
    decreases e, 0int,
{
    proof {
        reveal_strlit("NoneLiteral");
        reveal_strlit("true");
        reveal_strlit("false");
    }
    match e {
        Expression::IntLiteral(n) => wrap("IntLiteral(", i64_text(*n), ")"),
        Expression::FloatLiteral(t) => wrap("FloatLiteral(", render_float(t.as_str()), ")"),
        Expression::StringLiteral(x) => wrap("StringLiteral(", debug_str(x.as_str()), ")"),
        Expression::BoolLiteral(b) => wrap("BoolLiteral(", if *b { "true".to_string() } else { "false".to_string() }, ")"),
        Expression::NoneLiteral => "NoneLiteral".to_string(),
        Expression::Name { id, ty } => {
            let mut s = "Name { id: ".to_string();
            s.append(debug_str(id.as_str()).as_str());
            s.append(", ty: ");
            s.append(render_type(ty).as_str());
            s.append(" }");
            s
        },
        Expression::BinaryOp { op, left, right, ty } => {
            let mut s = "BinaryOp { op: ".to_string();
            s.append(render_binop(*op).as_str());
            s.append(", left: ");
            s.append(debug_expression(left).as_str());
            s.append(", right: ");
            s.append(debug_expression(right).as_str());
            s.append(", ty: ");
            s.append(render_type(ty).as_str());
            s.append(" }");
            s
        },
        Expression::UnaryOp { op, operand, ty } => {
            let mut s = "UnaryOp { op: ".to_string();
            s.append(render_unop(*op).as_str());
            s.append(", operand: ");
            s.append(debug_expression(operand).as_str());
            s.append(", ty: ");
            s.append(render_type(ty).as_str());
            s.append(" }");
            s
        },
        Expression::Call { func, args, keywords, ty } => {
            let mut s = "Call { func: ".to_string();
            s.append(debug_expression(func).as_str());
            s.append(", args: ");
            s.append(render_exprs(args).as_str());
            s.append(", keywords: [");
            s.append(render_keywords_items(keywords).as_str());
            s.append("], ty: ");
            s.append(render_type(ty).as_str());
            s.append(" }");
            s
        },
        Expression::Attribute { value, attr, ty } => {
            let mut s = "Attribute { value: ".to_string();
            s.append(debug_expression(value).as_str());
            s.append(", attr: ");
            s.append(debug_str(attr.as_str()).as_str());
            s.append(", ty: ");
            s.append(render_type(ty).as_str());
            s.append(" }");
            s
        },
        Expression::Subscript { value, index, ty } => {
            let mut s = "Subscript { value: ".to_string();
            s.append(debug_expression(value).as_str());
            s.append(", index: ");
            s.append(debug_expression(index).as_str());
            s.append(", ty: ");
            s.append(render_type(ty).as_str());
            s.append(" }");
            s
        },
        Expression::List { elements, ty } => {
            let mut s = "List { elements: ".to_string();
            s.append(render_exprs(elements).as_str());
            s.append(", ty: ");
            s.append(render_type(ty).as_str());
            s.append(" }");
            s
        },
        Expression::Dict { keys, values, ty } => {
            let mut s = "Dict { keys: ".to_string();
            s.append(render_exprs(keys).as_str());
            s.append(", values: ");
            s.append(render_exprs(values).as_str());
            s.append(", ty: ");
            s.append(render_type(ty).as_str());
            s.append(" }");
            s
        },
        Expression::Tuple { elements, ty } => {
            let mut s = "Tuple { elements: ".to_string();
            s.append(render_exprs(elements).as_str());
            s.append(", ty: ");
            s.append(render_type(ty).as_str());
            s.append(" }");
            s
        },
        Expression::IfExpr { test, body, orelse, ty } => {
            let mut s = "IfExpr { test: ".to_string();
            s.append(debug_expression(test).as_str());
            s.append(", body: ");
            s.append(debug_expression(body).as_str());
            s.append(", orelse: ");
            s.append(debug_expression(orelse).as_str());
            s.append(", ty: ");
            s.append(render_type(ty).as_str());
            s.append(" }");
            s
        },
        Expression::Lambda { params, body, ty } => {
            let mut s = "Lambda { params: [".to_string();
            s.append(render_strings_items(params).as_str());
            s.append("], body: ");
            s.append(debug_expression(body).as_str());
            s.append(", ty: ");
            s.append(render_type(ty).as_str());
            s.append(" }");
            s
        },
        Expression::Await { value, ty } => {
            let mut s = "Await { value: ".to_string();
            s.append(debug_expression(value).as_str());
            s.append(", ty: ");
            s.append(render_type(ty).as_str());
            s.append(" }");
            s
        },
        Expression::FString { parts, ty } => {
            let mut s = "FString { parts: [".to_string();
            s.append(render_parts_items(parts).as_str());
            s.append("], ty: ");
            s.append(render_type(ty).as_str());
            s.append(" }");
            s
        },
        Expression::ListComp { element, generators, ty } => {
            let mut s = "ListComp { element: ".to_string();
            s.append(debug_expression(element).as_str());
            s.append(", generators: [");
            s.append(render_generators_items(generators).as_str());
            s.append("], ty: ");
            s.append(render_type(ty).as_str());
            s.append(" }");
            s
        },
        Expression::DictComp { key, value, generators, ty } => {
            let mut s = "DictComp { key: ".to_string();
            s.append(debug_expression(key).as_str());
            s.append(", value: ");
            s.append(debug_expression(value).as_str());
            s.append(", generators: [");
            s.append(render_generators_items(generators).as_str());
            s.append("], ty: ");
            s.append(render_type(ty).as_str());
            s.append(" }");
            s
        },
    }
}

/// The `{:?}` rendering of a list of types: `[a, b, c]`.
pub open spec fn types_debug(ts: Seq<TypeAnnotation>) -> Seq<char>
    decreases ts,
{
    "["@ + types_debug_items(ts, ts.len() as int) + "]"@
}

/// The first `n` types of `ts`, rendered and separated by `, `.
pub open spec fn types_debug_items(ts: Seq<TypeAnnotation>, n: int) -> Seq<char>
    decreases ts, n,
{
    if n <= 0 || n > ts.len() {
        Seq::empty()
    } else if n == 1 {
        type_debug(ts[0])
    } else {
        types_debug_items(ts, n - 1) + ", "@ + type_debug(ts[n - 1])
    }
}

/// The `{:?}` rendering of a type annotation, as the derived `Debug` writes it.
pub open spec fn type_debug(t: TypeAnnotation) -> Seq<char>
    decreases t, 0int,
{
    match t {
        TypeAnnotation::Int => "Int"@,
        TypeAnnotation::Float => "Float"@,
        TypeAnnotation::Str => "Str"@,
        TypeAnnotation::Bool => "Bool"@,
        TypeAnnotation::Bytes => "Bytes"@,
        TypeAnnotation::NoneType => "None"@,
        TypeAnnotation::List(a) => "List("@ + type_debug(*a) + ")"@,
        TypeAnnotation::Dict(k, v) => "Dict("@ + type_debug(*k) + ", "@ + type_debug(*v) + ")"@,
        TypeAnnotation::Tuple(ts) => "Tuple("@ + types_debug(ts@) + ")"@,
        TypeAnnotation::SetOf(a) => "Set("@ + type_debug(*a) + ")"@,
        TypeAnnotation::Optional(a) => "Optional("@ + type_debug(*a) + ")"@,
        TypeAnnotation::Union(ts) => "Union("@ + types_debug(ts@) + ")"@,
        TypeAnnotation::Class(name) => "Class("@ + str_debug(name@) + ")"@,
        TypeAnnotation::Callable { params, ret } => "Callable { params: "@ + types_debug(params@)
            + ", ret: "@ + type_debug(*ret) + " }"@,
        TypeAnnotation::Any => "Any"@,
        TypeAnnotation::Unknown => "Unknown"@,
    }
}

/// Writes a list of types in `{:?}` notation.
fn render_types(ts: &Vec<TypeAnnotation>) -> (r: String)
    ensures
        r@ == types_debug(ts@),
    decreases ts, 1int,
{
    let mut out = "[".to_string();
    let mut i: usize = 0;
    proof {
        reveal_strlit("[");
        reveal_strlit("]");
        reveal_strlit(", ");
    }
    while i < ts.len()
        invariant
            i <= ts@.len(),
            out@ == "["@ + types_debug_items(ts@, i as int),
        decreases ts@.len() - i,
    {
        assert(decreases_to!(ts => ts@[i as int]));
        if i > 0 {
            out.append(", ");
        }
        let item = render_type(&ts[i]);
        out.append(item.as_str());
        i = i + 1;
    }
    out.append("]");
    out
}

/// Writes a type annotation in `{:?}` notation, as the derived `Debug` does.
pub fn render_type(t: &TypeAnnotation) -> (r: String)
    ensures
        r@ == type_debug(*t),
    decreases t, 0int,
{
    proof {
        reveal_strlit("Int");
        reveal_strlit("Float");
        reveal_strlit("Str");
        reveal_strlit("Bool");
        reveal_strlit("Bytes");
        reveal_strlit("None");
        reveal_strlit("Any");
        reveal_strlit("Unknown");
    }
    match t {
        TypeAnnotation::Int => "Int".to_string(),
        TypeAnnotation::Float => "Float".to_string(),
        TypeAnnotation::Str => "Str".to_string(),
        TypeAnnotation::Bool => "Bool".to_string(),
        TypeAnnotation::Bytes => "Bytes".to_string(),
        TypeAnnotation::NoneType => "None".to_string(),
        TypeAnnotation::List(a) => wrap("List(", render_type(a), ")"),
        TypeAnnotation::Dict(k, v) => {
            let mut s = "Dict(".to_string();
            s.append(render_type(k).as_str());
            s.append(", ");
            s.append(render_type(v).as_str());
            s.append(")");
            s
        },
        TypeAnnotation::Tuple(ts) => wrap("Tuple(", render_types(ts), ")"),
        TypeAnnotation::SetOf(a) => wrap("Set(", render_type(a), ")"),
        TypeAnnotation::Optional(a) => wrap("Optional(", render_type(a), ")"),
        TypeAnnotation::Union(ts) => wrap("Union(", render_types(ts), ")"),
        TypeAnnotation::Class(name) => wrap("Class(", debug_str(name.as_str()), ")"),
        TypeAnnotation::Callable { params, ret } => {
            let mut s = "Callable { params: ".to_string();
            s.append(render_types(params).as_str());
            s.append(", ret: ");
            s.append(render_type(ret).as_str());
            s.append(" }");
            s
        },
        TypeAnnotation::Any => "Any".to_string(),
        TypeAnnotation::Unknown => "Unknown".to_string(),
    }
}

/// `open`, then `middle`, then `close`.
pub fn wrap(open: &str, middle: String, close: &str) -> (r: String)
    ensures
        r@ == open@ + middle@ + close@,
{
    let mut s = open.to_string();
    s.append(middle.as_str());
    s.append(close);
    s
}

} // verus!
