use pico_vm::opcode::{decode, Instruction, OpCode, OPCODE_COUNT};
use pico_vm::error::VmError;

#[test]
fn every_valid_byte_round_trips() {
    for b in 0..OPCODE_COUNT {
        let op = OpCode::from_byte(b).expect("valid byte");
        assert_eq!(op.to_byte(), b);
    }
}

#[test]
fn table_bytes_match_instructions() {
    assert_eq!(OpCode::from_byte(0), Some(OpCode::Return));
    assert_eq!(OpCode::from_byte(1), Some(OpCode::GetConstant));
    assert_eq!(OpCode::from_byte(2), Some(OpCode::GetConstantLong));
    assert_eq!(OpCode::from_byte(7), Some(OpCode::Divide));
    assert_eq!(OpCode::from_byte(16), Some(OpCode::LogicalNot));
    assert_eq!(OpCode::from_byte(17), Some(OpCode::Unit));
    assert_eq!(OpCode::from_byte(18), Some(OpCode::True));
    assert_eq!(OpCode::from_byte(19), Some(OpCode::False));
}

#[test]
fn bytes_outside_the_table_are_invalid() {
    for b in OPCODE_COUNT..=255u8 {
        assert_eq!(OpCode::from_byte(b), None);
        assert_eq!(
            decode(&[b], 0),
            Err(VmError::InvalidOpcode { offset: 0, byte: b })
        );
    }
}

#[test]
fn arity_of_each_kind() {
    assert_eq!(OpCode::GetConstant.arity(), 1);
    assert_eq!(OpCode::GetConstantLong.arity(), 3);
    assert_eq!(OpCode::Return.arity(), 0);
    assert_eq!(OpCode::Add.arity(), 0);
    assert_eq!(OpCode::LogicalNot.arity(), 0);
    assert_eq!(OpCode::False.arity(), 0);
}

#[test]
fn decode_short_and_long_operands() {
    assert_eq!(
        decode(&[1, 42], 0),
        Ok(Instruction { op: OpCode::GetConstant, index: 42, next: 2 })
    );
    assert_eq!(
        decode(&[4, 2, 0x01, 0x02, 0x03], 1),
        Ok(Instruction { op: OpCode::GetConstantLong, index: 0x010203, next: 5 })
    );
    assert_eq!(
        decode(&[0], 0),
        Ok(Instruction { op: OpCode::Return, index: 0, next: 1 })
    );
}

#[test]
fn decode_truncated_get_constant() {
    assert_eq!(decode(&[1], 0), Err(VmError::TruncatedInstruction { offset: 0 }));
    assert_eq!(decode(&[4, 1], 1), Err(VmError::TruncatedInstruction { offset: 1 }));
    assert_eq!(decode(&[2, 0, 1], 0), Err(VmError::TruncatedInstruction { offset: 0 }));
}

#[test]
fn decode_past_the_end() {
    assert_eq!(decode(&[0, 0, 0], 3), Err(VmError::TruncatedInstruction { offset: 3 }));
    assert_eq!(decode(&[], 0), Err(VmError::TruncatedInstruction { offset: 0 }));
}
