//! The intermediate representation: low-level types, instructions, basic
//! blocks, functions and modules, and the lowering pass from the syntax
//! tree.

pub mod instruction;
pub mod lower;
pub mod module;
pub mod types;

pub use instruction::{BinaryOp, CompareOp, Instruction, Value};
pub use lower::{lower_program, LoweringContext};
pub use module::{
    BasicBlock, DatabaseConfig, Function, Global, HttpRoute, ImplDef, Module, ServerConfig,
    TraitDef, TraitMethodDef, TypeAlias, WsRoute,
};
pub use types::{GenericParam, IrType, StructDef};
