//! Celer: the analysis and planning core of an ahead-of-time Python compiler
//! for backend frameworks, with its contracts proved by Verus.

pub mod adapter;
pub mod bench;
pub mod cli;
pub mod cloud;
pub mod codegen;
pub mod django;
pub mod fastapi;
pub mod flask;
pub mod hir;
pub mod text;
