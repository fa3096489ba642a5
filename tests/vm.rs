use pico_vm::chunk::Chunk;
use pico_vm::error::VmError;
use pico_vm::opcode::OpCode;
use pico_vm::value::Value;
use pico_vm::vm::{binary_op, execute, unary_op};

/// A chunk that loads each value in turn, then runs `ops`, then `Return`.
fn program(values: &[Value], ops: &[OpCode]) -> Chunk {
    let mut chunk = Chunk::new();
    for (line, v) in values.iter().enumerate() {
        let index = chunk.add_constant(*v).unwrap();
        chunk.write_instruction(OpCode::GetConstant, &[index as u8], line + 1);
    }
    for op in ops {
        chunk.write_instruction(*op, &[], 100);
    }
    chunk.write_instruction(OpCode::Return, &[], 101);
    chunk
}

#[test]
fn get_constant_then_return() {
    let mut chunk = Chunk::new();
    chunk.add_constant(Value::Number(3));
    chunk.write_bytes(&[1, 0, 0]);
    assert_eq!(execute(&chunk), Ok(Value::Number(3)));
}

#[test]
fn add_two_numbers() {
    let chunk = program(&[Value::Number(2), Value::Number(3)], &[OpCode::Add]);
    assert_eq!(execute(&chunk), Ok(Value::Number(5)));
}

#[test]
fn divide_by_zero() {
    let chunk = program(&[Value::Number(5), Value::Number(0)], &[OpCode::Divide]);
    assert_eq!(execute(&chunk), Err(VmError::DivisionByZero { offset: 4 }));
}

#[test]
fn add_bool_and_number() {
    let chunk = program(&[Value::Bool(true), Value::Number(1)], &[OpCode::Add]);
    assert_eq!(
        execute(&chunk),
        Err(VmError::TypeMismatch { offset: 4, op: OpCode::Add })
    );
}

fn pool_of_300() -> Chunk {
    let mut chunk = Chunk::new();
    for i in 0..300i64 {
        assert_eq!(chunk.add_constant(Value::Number(i * 10)), Some(i as usize));
    }
    chunk
}

#[test]
fn get_constant_long_index_256() {
    let mut chunk = pool_of_300();
    chunk.write_instruction(OpCode::GetConstantLong, &[0, 1, 0], 1);
    chunk.write_instruction(OpCode::Return, &[], 1);
    assert_eq!(execute(&chunk), Ok(Value::Number(2560)));
}

#[test]
fn get_constant_long_index_out_of_range() {
    for index in [300u32, 301, 0xFFFFFF] {
        let mut chunk = pool_of_300();
        let b = index.to_be_bytes();
        chunk.write_instruction(OpCode::GetConstantLong, &[b[1], b[2], b[3]], 1);
        chunk.write_instruction(OpCode::Return, &[], 1);
        assert_eq!(
            execute(&chunk),
            Err(VmError::ConstantIndexOutOfRange { offset: 0, index: index as usize })
        );
    }
}

#[test]
fn get_constant_short_index_out_of_range() {
    let mut chunk = Chunk::new();
    chunk.write_bytes(&[1, 0, 0]);
    assert_eq!(
        execute(&chunk),
        Err(VmError::ConstantIndexOutOfRange { offset: 0, index: 0 })
    );
}

#[test]
fn return_on_empty_stack() {
    let mut chunk = Chunk::new();
    chunk.write_instruction(OpCode::Return, &[], 1);
    assert_eq!(
        execute(&chunk),
        Err(VmError::StackUnderflow { offset: 0, op: OpCode::Return })
    );
}

#[test]
fn return_yields_top_of_stack() {
    let chunk = program(&[Value::Number(1), Value::Number(2)], &[]);
    assert_eq!(execute(&chunk), Ok(Value::Number(2)));
}

#[test]
fn arithmetic_results() {
    let n = Value::Number;
    assert_eq!(execute(&program(&[n(7), n(10)], &[OpCode::Subtract])), Ok(n(-3)));
    assert_eq!(execute(&program(&[n(-6), n(7)], &[OpCode::Multiply])), Ok(n(-42)));
    assert_eq!(execute(&program(&[n(-7), n(2)], &[OpCode::Divide])), Ok(n(-3)));
    assert_eq!(execute(&program(&[n(7), n(-2)], &[OpCode::Divide])), Ok(n(-3)));
    assert_eq!(execute(&program(&[n(-7), n(-2)], &[OpCode::Divide])), Ok(n(3)));
    assert_eq!(execute(&program(&[n(9)], &[OpCode::Negate])), Ok(n(-9)));
}

#[test]
fn arithmetic_overflow() {
    let n = Value::Number;
    assert_eq!(
        binary_op(OpCode::Add, n(i64::MAX), n(1), 9),
        Err(VmError::ArithmeticOverflow { offset: 9, op: OpCode::Add })
    );
    assert_eq!(
        binary_op(OpCode::Divide, n(i64::MIN), n(-1), 2),
        Err(VmError::ArithmeticOverflow { offset: 2, op: OpCode::Divide })
    );
    assert_eq!(
        unary_op(OpCode::Negate, n(i64::MIN), 0),
        Err(VmError::ArithmeticOverflow { offset: 0, op: OpCode::Negate })
    );
    assert_eq!(binary_op(OpCode::Subtract, n(i64::MIN), n(-1), 0), Ok(n(i64::MIN + 1)));
}

#[test]
fn comparisons() {
    let n = Value::Number;
    let t = Value::Bool(true);
    let f = Value::Bool(false);
    assert_eq!(execute(&program(&[n(1), n(2)], &[OpCode::Less])), Ok(t));
    assert_eq!(execute(&program(&[n(2), n(2)], &[OpCode::LessEqual])), Ok(t));
    assert_eq!(execute(&program(&[n(1), n(2)], &[OpCode::Greater])), Ok(f));
    assert_eq!(execute(&program(&[n(2), n(2)], &[OpCode::GreaterEqual])), Ok(t));
    assert_eq!(execute(&program(&[n(2), n(2)], &[OpCode::Equal])), Ok(t));
    assert_eq!(execute(&program(&[t, f], &[OpCode::NotEqual])), Ok(t));
    assert_eq!(binary_op(OpCode::Equal, Value::Unit, Value::Unit, 0), Ok(t));
    assert_eq!(
        execute(&program(&[t, t], &[OpCode::Less])),
        Err(VmError::TypeMismatch { offset: 4, op: OpCode::Less })
    );
}

#[test]
fn equality_across_variants_is_a_type_error() {
    let chunk = program(&[Value::Number(1), Value::Bool(true)], &[OpCode::Equal]);
    assert_eq!(
        execute(&chunk),
        Err(VmError::TypeMismatch { offset: 4, op: OpCode::Equal })
    );
}

#[test]
fn logic_is_eager() {
    let t = Value::Bool(true);
    let f = Value::Bool(false);
    assert_eq!(execute(&program(&[t, f], &[OpCode::LogicalAnd])), Ok(f));
    assert_eq!(execute(&program(&[f, t], &[OpCode::LogicalOr])), Ok(t));
    assert_eq!(execute(&program(&[f], &[OpCode::LogicalNot])), Ok(t));
    assert_eq!(
        execute(&program(&[Value::Number(0)], &[OpCode::LogicalNot])),
        Err(VmError::TypeMismatch { offset: 2, op: OpCode::LogicalNot })
    );
    assert_eq!(
        execute(&program(&[t], &[OpCode::Negate])),
        Err(VmError::TypeMismatch { offset: 2, op: OpCode::Negate })
    );
}

#[test]
fn literal_instructions() {
    assert_eq!(execute(&program(&[], &[OpCode::Unit])), Ok(Value::Unit));
    assert_eq!(execute(&program(&[], &[OpCode::True])), Ok(Value::Bool(true)));
    assert_eq!(execute(&program(&[], &[OpCode::False])), Ok(Value::Bool(false)));
    assert_eq!(
        execute(&program(&[], &[OpCode::True, OpCode::False, OpCode::LogicalOr])),
        Ok(Value::Bool(true))
    );
}

#[test]
fn underflow_on_binary_operation() {
    let chunk = program(&[Value::Number(1)], &[OpCode::Add]);
    assert_eq!(
        execute(&chunk),
        Err(VmError::StackUnderflow { offset: 2, op: OpCode::Add })
    );
    let chunk = program(&[], &[OpCode::Negate]);
    assert_eq!(
        execute(&chunk),
        Err(VmError::StackUnderflow { offset: 0, op: OpCode::Negate })
    );
}

#[test]
fn invalid_opcode_stops_execution() {
    let mut chunk = Chunk::new();
    chunk.write_bytes(&[17, 200, 0]);
    assert_eq!(
        execute(&chunk),
        Err(VmError::InvalidOpcode { offset: 1, byte: 200 })
    );
}

#[test]
fn running_off_the_end() {
    let mut chunk = Chunk::new();
    chunk.write_bytes(&[17, 18]);
    assert_eq!(execute(&chunk), Err(VmError::TruncatedInstruction { offset: 2 }));
    let mut chunk = Chunk::new();
    chunk.write_bytes(&[17, 1]);
    assert_eq!(execute(&chunk), Err(VmError::TruncatedInstruction { offset: 1 }));
}
