use vstd::prelude::*;

verus! {

/// Failures of code generation.
#[derive(Debug, PartialEq, Eq)]
pub enum CodegenError {
    UnsupportedType(String),
    UnsupportedExpression(String),
    UndefinedFunction(String),
    UndefinedVariable(String),
    LlvmError(String),
    TargetMachineError(String),
    UnresolvedType,
}

/// A code generation failure, with its message as a character sequence.
pub enum CodegenFailure {
    Type(Seq<char>),
    Expr(Seq<char>),
    Function(Seq<char>),
    Variable(Seq<char>),
    Llvm(Seq<char>),
    Unresolved,
}

/// `e` is the error that reports `f`.
pub open spec fn reports(e: CodegenError, f: CodegenFailure) -> bool {
    match f {
        CodegenFailure::Type(m) => e matches CodegenError::UnsupportedType(s) && s@ == m,
        CodegenFailure::Expr(m) => e matches CodegenError::UnsupportedExpression(s) && s@ == m,
        CodegenFailure::Function(m) => e matches CodegenError::UndefinedFunction(s) && s@ == m,
        CodegenFailure::Variable(m) => e matches CodegenError::UndefinedVariable(s) && s@ == m,
        CodegenFailure::Llvm(m) => e matches CodegenError::LlvmError(s) && s@ == m,
        CodegenFailure::Unresolved => e == CodegenError::UnresolvedType,
    }
}

/// What lowering a construct comes to: success, a failure, or a panic of the code
/// generator (an operand of the wrong machine type reaching an instruction builder).
pub enum Outcome {
    Done,
    Fails(CodegenFailure),
    Panics,
}

/// `a`, and when it succeeds, `b`.
pub open spec fn then(a: Outcome, b: Outcome) -> Outcome {
    match a {
        Outcome::Done => b,
        _ => a,
    }
}

/// `r` reports the failure of `o`.
pub open spec fn fails_as<T>(r: Result<T, CodegenError>, o: Outcome) -> bool {
    match o {
        Outcome::Fails(f) => r matches Err(e) && reports(e, f),
        _ => false,
    }
}

/// Why lowering stopped: a code generation error, or an operand of the wrong machine type
/// reaching an instruction builder, where the LLVM builder panics.
#[derive(Debug, PartialEq, Eq)]
pub enum CodegenStop {
    Error(CodegenError),
    BuilderPanic,
}

/// `r` reports how `o` stops: its failure, or the builder's panic.
pub open spec fn stops_as<T>(r: Result<T, CodegenStop>, o: Outcome) -> bool {
    match o {
        Outcome::Fails(f) => r matches Err(CodegenStop::Error(e)) && reports(e, f),
        Outcome::Panics => r matches Err(CodegenStop::BuilderPanic),
        Outcome::Done => false,
    }
}

} // verus!
