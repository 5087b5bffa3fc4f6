use vstd::prelude::*;

use super::debug_text::{render_type, type_debug};
use super::error::CodegenError;
use crate::hir::TypeAnnotation;

verus! {

/// The machine types that values are lowered to.
#[derive(Debug, Clone, Copy, PartialEq, Eq, Structural)]
pub enum LlvmType {
    /// A 64-bit integer.
    I64,
    /// A 64-bit float.
    F64,
    /// A one-bit boolean.
    I1,
    /// An opaque pointer.
    Ptr,
}

/// The machine type of a type annotation: `None` for types with no value, an error for types
/// that code generation does not handle.
pub open spec fn lowered_type(ty: TypeAnnotation) -> Result<Option<LlvmType>, ()> {
    match ty {
        TypeAnnotation::Int => Ok(Some(LlvmType::I64)),
        TypeAnnotation::Float => Ok(Some(LlvmType::F64)),
        TypeAnnotation::Bool => Ok(Some(LlvmType::I1)),
        TypeAnnotation::Str => Ok(Some(LlvmType::Ptr)),
        TypeAnnotation::NoneType => Ok(None),
        TypeAnnotation::Dict(_, _) => Ok(None),
        TypeAnnotation::List(_) => Ok(Some(LlvmType::Ptr)),
        TypeAnnotation::Tuple(_) => Ok(Some(LlvmType::Ptr)),
        _ => Err(()),
    }
}

/// The error that `resolve_type` reports for a type it does not handle.
pub open spec fn type_error(ty: TypeAnnotation, e: CodegenError) -> bool {
    if ty is Unknown {
        e == CodegenError::UnresolvedType
    } else {
        e matches CodegenError::UnsupportedType(m) && m@ == type_debug(ty)
    }
}

/// Resolves a type annotation to its machine type; `None` for `None` and for dicts, which are
/// returned through output parameters.
pub fn resolve_type(ty: &TypeAnnotation) -> (r: Result<Option<LlvmType>, CodegenError>)
    ensures
        match lowered_type(*ty) {
            Ok(t) => r == Ok::<Option<LlvmType>, CodegenError>(t),
            Err(_) => r matches Err(e) && type_error(*ty, e),
        },
{
    match ty {
        TypeAnnotation::Int => Ok(Some(LlvmType::I64)),
        TypeAnnotation::Float => Ok(Some(LlvmType::F64)),
        TypeAnnotation::Bool => Ok(Some(LlvmType::I1)),
        TypeAnnotation::Str => Ok(Some(LlvmType::Ptr)),
        TypeAnnotation::NoneType => Ok(None),
        TypeAnnotation::Unknown => Err(CodegenError::UnresolvedType),
        TypeAnnotation::Dict(_, _) => Ok(None),
        TypeAnnotation::List(_) => Ok(Some(LlvmType::Ptr)),
        TypeAnnotation::Tuple(_) => Ok(Some(LlvmType::Ptr)),
        _ => Err(CodegenError::UnsupportedType(render_type(ty))),
    }
}

/// Whether a return type selects the JSON convention: the function writes a JSON string
/// through two output parameters instead of returning a value.
pub fn is_json_return_type(ty: &TypeAnnotation) -> (r: bool)
    ensures
        r == (*ty is Dict),
{
    matches!(ty, TypeAnnotation::Dict(_, _))
}

} // verus!
