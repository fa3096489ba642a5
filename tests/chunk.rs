use pico_vm::chunk::Chunk;
use pico_vm::opcode::OpCode;
use pico_vm::value::Value;

#[test]
fn constants_get_consecutive_indices() {
    let mut chunk = Chunk::new();
    assert_eq!(chunk.add_constant(Value::Number(4)), Some(0));
    assert_eq!(chunk.add_constant(Value::Number(4)), Some(1));
    assert_eq!(chunk.add_constant(Value::Unit), Some(2));
    assert_eq!(chunk.get_constant(1), Some(Value::Number(4)));
    assert_eq!(chunk.get_constant(2), Some(Value::Unit));
    assert_eq!(chunk.get_constant(3), None);
}

#[test]
fn instructions_record_their_lines() {
    let mut chunk = Chunk::new();
    chunk.write_instruction(OpCode::GetConstant, &[0], 3);
    chunk.write_bytes(&[4]);
    chunk.write_instruction(OpCode::Return, &[], 5);
    assert_eq!(chunk.code, vec![1, 0, 4, 0]);
    assert_eq!(chunk.get_line_no(0), Some(3));
    assert_eq!(chunk.get_line_no(1), None);
    assert_eq!(chunk.get_line_no(2), None);
    assert_eq!(chunk.get_line_no(3), Some(5));
    assert_eq!(chunk.get_line_no(4), None);
}

#[test]
fn empty_chunk() {
    let chunk = Chunk::new();
    assert!(chunk.code.is_empty());
    assert_eq!(chunk.get_constant(0), None);
    assert_eq!(chunk.get_line_no(0), None);
}
