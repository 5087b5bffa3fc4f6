//! The lowered form of functions: which machine operation each construct becomes. A backend
//! builds the machine code by walking this plan.

use vstd::prelude::*;

use super::emit_json::{ArgFormat, JsonPlan};
use super::types::LlvmType;

verus! {

/// Integer operations.
#[derive(Debug, Clone, Copy, PartialEq, Eq, Structural)]
pub enum IntOp {
    Add,
    Sub,
    Mul,
    SignedDiv,
    SignedRem,
    And,
    Or,
    Xor,
    Shl,
    ArithmeticShr,
}

/// Floating-point operations.
#[derive(Debug, Clone, Copy, PartialEq, Eq, Structural)]
pub enum FloatOp {
    Add,
    Sub,
    Mul,
    Div,
    Rem,
}

/// Signed integer comparisons.
#[derive(Debug, Clone, Copy, PartialEq, Eq, Structural)]
pub enum IntPredicate {
    Equal,
    NotEqual,
    SignedLess,
    SignedLessEqual,
    SignedGreater,
    SignedGreaterEqual,
}

/// Ordered floating-point comparisons.
#[derive(Debug, Clone, Copy, PartialEq, Eq, Structural)]
pub enum FloatPredicate {
    OrderedEqual,
    OrderedNotEqual,
    OrderedLess,
    OrderedLessEqual,
    OrderedGreater,
    OrderedGreaterEqual,
}

/// How a binary operator is lowered, chosen by the operator and the operands' machine types.
#[derive(Debug, Clone, Copy, PartialEq, Eq, Structural)]
pub enum BinaryLowering {
    /// An integer instruction on the two operands.
    Int(IntOp),
    /// A floating-point instruction on the two operands.
    Float(FloatOp),
    /// Both integer operands converted to float, then divided.
    IntTrueDiv,
    /// Both integer operands converted to float and raised with `pow`; the result converted
    /// back to an integer when `to_int` holds.
    IntPow { to_int: bool },
    /// `pow` on two floats.
    FloatPow,
    /// A signed integer comparison.
    IntCompare(IntPredicate),
    /// An ordered floating-point comparison.
    FloatCompare(FloatPredicate),
    /// `strcmp` compared with zero: equal when `equal` holds, else not equal.
    StrCompare { equal: bool },
    /// `snprintf("%s%s")` into a fresh buffer.
    StrConcat,
}

/// How a unary operator is lowered.
#[derive(Debug, Clone, Copy, PartialEq, Eq, Structural)]
pub enum UnaryLowering {
    IntNeg,
    FloatNeg,
    /// Bitwise complement, for `not` and `~`.
    Not,
}

/// How a call of a built-in function is lowered.
#[derive(Debug, Clone, Copy, PartialEq, Eq, Structural)]
pub enum BuiltinLowering {
    /// `strlen` of a string.
    StrLen,
    /// The length field of a list.
    ListLen,
    /// `snprintf("%lld")` into a fresh buffer.
    StrFromInt,
    /// `snprintf("%g")` into a fresh buffer.
    StrFromFloat,
    /// A string passed through (its buffer is still reserved).
    StrKeep,
    IntKeep,
    IntFromFloat,
    /// `strtol` in base 10.
    IntFromStr,
    FloatKeep,
    FloatFromInt,
    /// `strtod`.
    FloatFromStr,
    BoolKeep,
    /// Integer compared not equal to zero.
    BoolFromInt,
    /// Float compared ordered-not-equal to zero.
    BoolFromFloat,
    /// `strlen` compared not equal to zero.
    BoolFromStr,
}

/// How a condition becomes a one-bit boolean.
#[derive(Debug, Clone, Copy, PartialEq, Eq, Structural)]
pub enum BoolConversion {
    Keep,
    IntNonZero,
    FloatNonZero,
}

/// A run-time check on a list index `idx` against the list's length `len`.
#[derive(Debug, Clone, Copy, PartialEq, Eq, Structural)]
pub enum IndexCheck {
    /// `0 <= idx`.
    NonNegative,
    /// `idx < len`.
    BelowLength,
}

/// Whether the index `idx` passes the check `c` on a list of length `len`.
pub open spec fn check_passes(c: IndexCheck, idx: int, len: int) -> bool {
    match c {
        IndexCheck::NonNegative => 0 <= idx,
        IndexCheck::BelowLength => idx < len,
    }
}

/// Whether the index `idx` passes all the checks `cs` on a list of length `len`; an index
/// that fails one traps before any element is read.
pub open spec fn checks_admit(cs: Seq<IndexCheck>, idx: int, len: int) -> bool {
    forall|i: int| 0 <= i < cs.len() ==> check_passes(#[trigger] cs[i], idx, len)
}

/// The checks of a list subscript: the index is neither negative nor past the end.
pub open spec fn subscript_checks() -> Seq<IndexCheck> {
    seq![IndexCheck::NonNegative, IndexCheck::BelowLength]
}

/// The checks of a list subscript admit exactly the indices of the list's elements.
pub proof fn law_subscript_checks_admit_elements(idx: int, len: int)
    ensures
        checks_admit(subscript_checks(), idx, len) <==> 0 <= idx < len,
{
    if checks_admit(subscript_checks(), idx, len) {
        assert(check_passes(subscript_checks()[0], idx, len));
        assert(check_passes(subscript_checks()[1], idx, len));
    }
}

/// A lowered expression.
#[derive(Debug, PartialEq)]
pub enum Value {
    ConstInt(i64),
    /// A float constant, by its decimal text.
    ConstFloat(String),
    ConstBool(bool),
    /// A pointer to a global, NUL-terminated copy of the string.
    GlobalString(String),
    NullPtr,
    /// The current value of a local variable, read at the given type.
    Load { name: String, ty: LlvmType },
    Binary { op: BinaryLowering, lhs: Box<Value>, rhs: Box<Value> },
    Unary { op: UnaryLowering, operand: Box<Value> },
    Builtin { op: BuiltinLowering, arg: Box<Value> },
    /// The element count of a tuple type, known at compile time.
    TupleLen(usize),
    Call { callee: String, args: Vec<Value>, ret: LlvmType },
    /// A stack-allocated `{ i64 length, [N x elem] data }` struct.
    ListLiteral { elem: LlvmType, elements: Vec<Value> },
    /// A stack-allocated struct with one field per element type.
    TupleLiteral { fields: Vec<LlvmType>, elements: Vec<Value> },
    /// A list element, read only when the index passes every one of `checks` against the
    /// list's length (`checks_admit`); otherwise the code traps without reading memory.
    ListIndex { list: Box<Value>, index: Box<Value>, elem: LlvmType, checks: Vec<IndexCheck> },
    /// A tuple field at a constant index.
    TupleIndex { tuple: Box<Value>, index: usize, fields: Vec<LlvmType> },
}

/// A lowered statement.
#[derive(Debug, PartialEq)]
pub enum Stmt {
    /// Nothing is emitted for this statement.
    Skip,
    Return(Option<Value>),
    /// Stores into a local; `new_slot` is the type of a fresh stack slot when the local is new.
    Assign { target: String, value: Value, new_slot: Option<LlvmType> },
    /// Loads the local at `rhs_kind`, combines it with `rhs` by `op`, and stores the result.
    AugAssign { target: String, op: BinaryLowering, rhs: Value, rhs_kind: LlvmType },
    /// A branch; a body that `falls` through branches to the merge block.
    If {
        cond: Value,
        conversion: BoolConversion,
        then_body: Vec<Stmt>,
        then_falls: bool,
        else_body: Vec<Stmt>,
        else_falls: bool,
    },
    While { cond: Value, conversion: BoolConversion, body: Vec<Stmt>, body_falls: bool },
    /// A counted loop over `range(start, stop, step)`; the step is added only when the body
    /// falls through.
    For { target: String, start: Value, stop: Value, step: Value, body: Vec<Stmt>, body_falls: bool },
    Break,
    Continue,
}

/// How a function ends after its body.
#[derive(Debug, PartialEq)]
pub enum Ending {
    /// The body already ends in a terminator.
    Terminated,
    /// Returns zero of the given type.
    ReturnZero(LlvmType),
    ReturnVoid,
    /// Writes the JSON result through the two output parameters, then returns: a constant
    /// text, or `snprintf` of the format with the given locals into a buffer of 256 bytes,
    /// the `i`th local handed over as `passes[i]` says.
    Json { plan: JsonPlan, passes: Vec<ArgPass> },
}

/// How a local is handed to `snprintf`.
#[derive(Debug, PartialEq)]
pub enum ArgPass {
    /// Its value, loaded at this type.
    Load(LlvmType),
    /// Its one-bit value turned into text: a pointer to the C string `if_true` when it is 1,
    /// to `if_false` when it is 0.
    SelectText { if_true: String, if_false: String },
}

/// `p` is how a local of format `fmt` is handed over: integers, floats and strings by value,
/// booleans as the text `true` or `false`, which their `%s` prints into the JSON.
pub open spec fn passes_as(p: ArgPass, fmt: ArgFormat) -> bool {
    match fmt {
        ArgFormat::I64 => p == ArgPass::Load(LlvmType::I64),
        ArgFormat::F64 => p == ArgPass::Load(LlvmType::F64),
        ArgFormat::Str => p == ArgPass::Load(LlvmType::Ptr),
        ArgFormat::Bool => p matches ArgPass::SelectText { if_true, if_false } && if_true@ == "true"@
            && if_false@ == "false"@,
    }
}

/// `passes` hands over the variables of `plan`, one each, in order.
pub open spec fn passes_for(passes: Seq<ArgPass>, plan: JsonPlan) -> bool {
    match plan {
        JsonPlan::Static(_) => passes.len() == 0,
        JsonPlan::Dynamic { args, .. } => passes.len() == args@.len() && forall|i: int|
            0 <= i < passes.len() ==> passes_as(#[trigger] passes[i], args@[i].fmt),
    }
}

/// A lowered function.
#[derive(Debug, PartialEq)]
pub struct FunctionPlan {
    pub name: String,
    pub params: Vec<(String, LlvmType)>,
    /// `Some` for functions that return a value; `None` for void and JSON functions.
    pub ret: Option<LlvmType>,
    /// JSON functions take two extra pointer parameters for the output.
    pub json: bool,
    pub body: Vec<Stmt>,
    pub ending: Ending,
}

} // verus!
