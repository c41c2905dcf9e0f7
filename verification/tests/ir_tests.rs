//! Tests of the IR data structures and the lowering pass.

use mendes::ir::instruction::{BinaryOp, Instruction, Value};
use mendes::ir::lower::lower_program;
use mendes::ir::module::{Function, Module};
use mendes::ir::types::{IrType, StructDef};
use mendes::lexer::Lexer;
use mendes::parser::parse;

fn lower_source(source: &str) -> Module {
    let mut lexer = Lexer::new(source, 0);
    let tokens = lexer.tokenize();
    let (program, _) = parse(tokens);
    lower_program(&program)
}

#[test]
fn test_ir_type_display() {
    assert_eq!(IrType::I64.to_text(), "i64");
    assert_eq!(IrType::Ptr(Box::new(IrType::I64)).to_text(), "*i64");
    assert_eq!(
        IrType::Array(Box::new(IrType::I64), 10).to_text(),
        "[10 x i64]"
    );
}

#[test]
fn test_struct_def() {
    let mut s = StructDef::new("User".to_string());
    s.add_field("id".to_string(), IrType::I64);
    s.add_field("name".to_string(), IrType::String);

    assert_eq!(s.field_index("id"), Some(0));
    assert_eq!(s.field_index("name"), Some(1));
    assert_eq!(s.field_type("id"), Some(&IrType::I64));
}

#[test]
fn test_instruction_display() {
    let inst = Instruction::Binary {
        dest: 0,
        op: BinaryOp::Add,
        left: Value::Local("x".to_string()),
        right: Value::ConstInt(10),
    };
    assert_eq!(inst.to_text(), "%t0 = add %x, 10");
}

#[test]
fn test_call_display() {
    let inst = Instruction::Call {
        dest: Some(1),
        func: "foo".to_string(),
        args: vec![Value::ConstInt(1), Value::ConstInt(2)],
    };
    assert_eq!(inst.to_text(), "%t1 = call @foo(1, 2)");
}

#[test]
fn test_function_creation() {
    let mut func = Function::new("add", IrType::I64, false);
    func.add_param("a", IrType::I64);
    func.add_param("b", IrType::I64);

    let t0 = func.new_temp();
    func.emit(Instruction::Binary {
        dest: t0,
        op: BinaryOp::Add,
        left: Value::Param(0),
        right: Value::Param(1),
    });
    func.emit(Instruction::Return(Value::Temp(t0)));

    assert_eq!(func.params.len(), 2);
    assert_eq!(func.blocks.len(), 1);
    assert_eq!(func.blocks[0].instructions.len(), 2);
}

#[test]
fn test_module_display() {
    let mut module = Module::new("test");
    module.add_string("Hello, World!".to_string());

    let mut func = Function::new("main", IrType::Void, false);
    func.emit(Instruction::Return(Value::Void));
    module.add_function(func);

    let output = module.to_text();
    assert!(output.contains("; Module: test"));
    assert!(output.contains("define void@main"));
}

#[test]
fn test_lower_simple_function() {
    let source = r#"fn add(a: int, b: int) -> int:
    return a + b
"#;
    let module = lower_source(source);

    assert_eq!(module.functions.len(), 1);
    assert_eq!(module.functions[0].name, "add");
    assert_eq!(module.functions[0].params.len(), 2);
}

#[test]
fn test_lower_server() {
    let source = r#"server:
    host "0.0.0.0"
    port 8080
"#;
    let module = lower_source(source);

    assert!(module.server.is_some());
    let server = module.server.unwrap();
    assert_eq!(server.host, "0.0.0.0");
    assert_eq!(server.port, 8080);
}

#[test]
fn test_lower_api() {
    let source = r#"api GET /health:
    return string
    return "ok"
"#;
    let module = lower_source(source);

    assert_eq!(module.routes.len(), 1);
    assert_eq!(module.routes[0].method, "GET");
    assert_eq!(module.routes[0].path, "/health");
    assert_eq!(module.functions.len(), 1);
}

#[test]
fn test_lower_struct() {
    let source = r#"struct User:
    id: int
    name: string
"#;
    let module = lower_source(source);

    assert!(module.get_struct("User").is_some());
    let user = module.get_struct("User").unwrap();
    assert_eq!(user.fields.len(), 2);
}
