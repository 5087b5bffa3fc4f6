//! The high-level intermediate representation of parsed Python modules.

pub mod class_def;
pub mod error;
pub mod expr;
pub mod stmt;
pub mod types;

pub use class_def::ClassDef;
pub use error::HirError;
pub use expr::{BinaryOp, Comprehension, Expression, FStringPart, Keyword, UnaryOp};
pub use stmt::{Function, Module, Parameter, Statement};
pub use types::TypeAnnotation;
