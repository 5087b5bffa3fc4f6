//! Lowering of the operations on lists and tuples: subscripts and lengths.

use vstd::prelude::*;

use super::context::CodegenContext;
use super::debug_text::{render_type, type_debug, wrap};
use super::emit_expr::{
    emit_expression, expr_kind, expr_outcome, field_types_outcome, is_int, lowers_to, resolve_fields, resolved,
    type_fail,
};
use super::error::{reports, stops_as, then, CodegenError, CodegenFailure, CodegenStop, Outcome};
use super::plan::{
    checks_admit, law_subscript_checks_admit_elements, subscript_checks, BuiltinLowering, IndexCheck, Value,
};
use super::types::{lowered_type, resolve_type, LlvmType};
use crate::hir::{Expression, TypeAnnotation};
use crate::text::{decimal_digits, string_from, u64_digits};

verus! {

broadcast use vstd::string::group_string_axioms;

/// The outcome of `list[index]` with elements of type `inner`: both operands are lowered, the
/// element type resolved; a list that is not a pointer or an index that is not an integer
/// panics.
pub open spec fn list_subscript_outcome(
    list: Expression,
    index: Expression,
    inner: TypeAnnotation,
    env: super::context::EnvView,
) -> Outcome {
    then(
        expr_outcome(list, env),
        then(
            expr_outcome(index, env),
            match lowered_type(inner) {
                Err(_) => Outcome::Fails(type_fail(inner)),
                Ok(Option::None) => Outcome::Fails(
                    CodegenFailure::Type("cannot resolve list element type: "@ + type_debug(inner)),
                ),
                Ok(Option::Some(_)) => if expr_kind(list, env) is Ptr && is_int(expr_kind(index, env)) {
                    Outcome::Done
                } else {
                    Outcome::Panics
                },
            },
        ),
    )
}

/// A tuple index as the platform's `usize` reads it: negative literals wrap around 2^64.
pub open spec fn wrapped_index(n: i64) -> int {
    if n >= 0 {
        n as int
    } else {
        n + 0x1_0000_0000_0000_0000
    }
}

/// The outcome of `tuple[index]` on a tuple with element types `ts`: the index must be an
/// integer literal within the tuple, and every element type must resolve.
pub open spec fn tuple_subscript_outcome(
    tuple: Expression,
    index: Expression,
    ts: Seq<TypeAnnotation>,
    env: super::context::EnvView,
) -> Outcome {
    then(
        expr_outcome(tuple, env),
        match index {
            Expression::IntLiteral(n) => if wrapped_index(n) >= ts.len() {
                Outcome::Fails(
                    CodegenFailure::Llvm(
                        "tuple index "@ + decimal_digits(wrapped_index(n) as nat) + " out of range for tuple with "@
                            + decimal_digits(ts.len()) + " elements"@,
                    ),
                )
            } else {
                then(
                    field_types_outcome(ts, ts.len() as int),
                    if expr_kind(tuple, env) is Ptr {
                        Outcome::Done
                    } else {
                        Outcome::Panics
                    },
                )
            },
            _ => Outcome::Fails(CodegenFailure::Expr("tuple subscript requires a constant integer index"@)),
        },
    )
}

/// Lowers `list[index]`: a bounds-checked load of an element of type `list_inner_ty`.
pub fn emit_list_subscript(
    ctx: &CodegenContext,
    value: &Expression,
    index: &Expression,
    list_inner_ty: &TypeAnnotation,
) -> (r: Result<(Value, LlvmType), CodegenStop>)
    ensures
        match list_subscript_outcome(*value, *index, *list_inner_ty, ctx@) {
            Outcome::Done => r matches Ok((v, k)) && k == resolved(*list_inner_ty) && (v matches Value::ListIndex {
                list,
                index: i,
                elem,
                checks,
            } && lowers_to(*list, *value, ctx@) && lowers_to(*i, *index, ctx@) && elem == k && checks@
                == subscript_checks() && (forall|idx: int, len: int|
                #[trigger] checks_admit(checks@, idx, len) <==> 0 <= idx < len)),
            o => stops_as(r, o),
        },
{
    let (list, lk) = match emit_expression(ctx, value) {
        Ok(p) => p,
        Err(e) => {
            return Err(e);
        },
    };
    let (idx, ik) = match emit_expression(ctx, index) {
        Ok(p) => p,
        Err(e) => {
            return Err(e);
        },
    };
    let elem = match resolve_type(list_inner_ty) {
        Ok(Some(t)) => t,
        Ok(None) => {
            proof { reveal_strlit(""); }
            let m = wrap("cannot resolve list element type: ", render_type(list_inner_ty), "");
            return Err(CodegenStop::Error(CodegenError::UnsupportedType(m)));
        },
        Err(e) => {
            return Err(CodegenStop::Error(e));
        },
    };
    if !(matches!(lk, LlvmType::Ptr) && matches!(ik, LlvmType::I64 | LlvmType::I1)) {
        return Err(CodegenStop::BuilderPanic);
    }
    let checks = vec![IndexCheck::NonNegative, IndexCheck::BelowLength];
    proof {
        assert(checks@ == subscript_checks());
        assert forall|i: int, len: int| #[trigger] checks_admit(checks@, i, len) <==> 0 <= i < len by {
            law_subscript_checks_admit_elements(i, len);
        }
    }
    Ok((Value::ListIndex { list: Box::new(list), index: Box::new(idx), elem, checks }, elem))
}

/// The value of a tuple index literal as an unsigned 64-bit number.
fn index_bits(n: i64) -> (r: u64)
    ensures
        r as int == wrapped_index(n),
{
    if n >= 0 {
        n as u64
    } else {
        let m: i64 = -(n + 1);
        u64::MAX - (m as u64)
    }
}

/// Lowers `tuple[index]` for a tuple with element types `elem_types`; the index must be an
/// integer literal.
pub fn emit_tuple_subscript(
    ctx: &CodegenContext,
    value: &Expression,
    index: &Expression,
    elem_types: &Vec<TypeAnnotation>,
) -> (r: Result<(Value, LlvmType), CodegenStop>)
    ensures
        match tuple_subscript_outcome(*value, *index, elem_types@, ctx@) {
            Outcome::Done => r matches Ok((v, k)) && (v matches Value::TupleIndex { tuple, index: i, fields }
                && lowers_to(*tuple, *value, ctx@) && i as int == wrapped_index(index->IntLiteral_0)
                && fields@.len() == elem_types@.len() && (forall|j: int|
                0 <= j < fields@.len() ==> #[trigger] fields@[j] == resolved(elem_types@[j])) && k == fields@[i as int]),
            o => stops_as(r, o),
        },
{
    let (tuple, tk) = match emit_expression(ctx, value) {
        Ok(p) => p,
        Err(e) => {
            return Err(e);
        },
    };
    let idx = match index {
        Expression::IntLiteral(n) => index_bits(*n),
        _ => {
            proof { reveal_strlit("tuple subscript requires a constant integer index"); }
            return Err(
                CodegenStop::Error(
                    CodegenError::UnsupportedExpression("tuple subscript requires a constant integer index".to_string()),
                ),
            );
        },
    };
    if idx >= elem_types.len() as u64 {
        let mut m = wrap("tuple index ", string_from(u64_digits(idx).as_slice()), " out of range for tuple with ");
        m.append(string_from(u64_digits(elem_types.len() as u64).as_slice()).as_str());
        m.append(" elements");
        return Err(CodegenStop::Error(CodegenError::LlvmError(m)));
    }
    let fields = match resolve_fields(elem_types) {
        Ok(fs) => fs,
        Err(e) => {
            return Err(CodegenStop::Error(e));
        },
    };
    if !matches!(tk, LlvmType::Ptr) {
        return Err(CodegenStop::BuilderPanic);
    }
    let i = idx as usize;
    let k = fields[i];
    Ok((Value::TupleIndex { tuple: Box::new(tuple), index: i, fields }, k))
}

/// Lowers the length of a list: the length field at the start of its struct, read through a
/// pointer (the builder panics on an operand that is not one).
pub fn emit_list_len(ctx: &CodegenContext, list_expr: &Expression) -> (r: Result<(Value, LlvmType), CodegenStop>)
    ensures
        match then(
            expr_outcome(*list_expr, ctx@),
            if expr_kind(*list_expr, ctx@) is Ptr { Outcome::Done } else { Outcome::Panics },
        ) {
            Outcome::Done => r matches Ok((v, k)) && k == LlvmType::I64 && (v matches Value::Builtin {
                op: BuiltinLowering::ListLen,
                arg,
            } && lowers_to(*arg, *list_expr, ctx@)),
            o => stops_as(r, o),
        },
    decreases list_expr, 2int,
{
    match emit_expression(ctx, list_expr) {
        Ok((v, k)) => if matches!(k, LlvmType::Ptr) {
            Ok((Value::Builtin { op: BuiltinLowering::ListLen, arg: Box::new(v) }, LlvmType::I64))
        } else {
            Err(CodegenStop::BuilderPanic)
        },
        Err(e) => Err(e),
    }
}

/// The length of a tuple with `elem_count` elements, a constant.
pub fn emit_tuple_len(elem_count: usize) -> (r: (Value, LlvmType))
    ensures
        r == (Value::TupleLen(elem_count), LlvmType::I64),
{
    (Value::TupleLen(elem_count), LlvmType::I64)
}

} // verus!
