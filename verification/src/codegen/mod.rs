//! Code generation planning: how each construct of the intermediate representation is
//! lowered, and how dict returns become JSON.

pub mod compiler;
pub mod context;
pub mod debug_text;
pub mod emit_expr;
pub mod emit_function;
pub mod emit_json;
pub mod emit_stmt;
pub mod error;
pub mod plan;
pub mod collection;
pub mod types;

pub use error::{CodegenError, CodegenStop};
