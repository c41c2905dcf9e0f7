//! Tests of the Rust code generation backend.

use mendes::codegen::{CodeGen, RustBackend};
use mendes::ir::instruction::{Instruction, Value};
use mendes::ir::module::{Function, Module};
use mendes::ir::types::{IrType, StructDef};

#[test]
fn test_simple_function() {
    let mut module = Module::new("test");

    let mut func = Function::new("hello", IrType::String, false);
    func.emit(Instruction::Return(Value::ConstString(0)));
    module.add_function(func);
    module.add_string("Hello, World!".to_string());

    let backend = RustBackend::new();
    let code = backend.generate(&module);

    assert!(code.contains("fn hello()"));
    assert!(code.contains("fn __str_0()"));
    assert!(code.contains("Hello, World!"));
}

#[test]
fn test_struct_generation() {
    let mut module = Module::new("test");

    let mut user = StructDef::new("User".to_string());
    user.add_field("id".to_string(), IrType::I64);
    user.add_field("name".to_string(), IrType::String);
    module.add_struct(user);

    let backend = RustBackend::new();
    let code = backend.generate(&module);

    assert!(code.contains("pub struct User"));
    assert!(code.contains("pub id: i64"));
    assert!(code.contains("pub name: MendesString"));
}
