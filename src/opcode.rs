use vstd::prelude::*;
use crate::error::VmError;

verus! {

/// The closed instruction set. Each instruction is one opcode byte, followed
/// by as many operand bytes as its arity says.
#[derive(Debug, Clone, Copy, PartialEq, Eq, Structural)]
pub enum OpCode {
    /// Pops the top of the stack and yields it as the program's result.
    Return,
    /// Pushes the constant whose 8-bit pool index follows.
    GetConstant,
    /// Pushes the constant whose 24-bit big-endian pool index follows.
    GetConstantLong,
    Negate,
    Add,
    Subtract,
    Multiply,
    Divide,
    Equal,
    NotEqual,
    Less,
    LessEqual,
    Greater,
    GreaterEqual,
    LogicalAnd,
    LogicalOr,
    LogicalNot,
    Unit,
    True,
    False,
}

/// The number of instructions; every byte at or above this is no opcode.
pub const OPCODE_COUNT: u8 = 20;

impl OpCode {
    /// The byte that encodes this instruction.
    pub open spec fn byte(self) -> u8 {
        match self {
            OpCode::Return => 0,
            OpCode::GetConstant => 1,
            OpCode::GetConstantLong => 2,
            OpCode::Negate => 3,
            OpCode::Add => 4,
            OpCode::Subtract => 5,
            OpCode::Multiply => 6,
            OpCode::Divide => 7,
            OpCode::Equal => 8,
            OpCode::NotEqual => 9,
            OpCode::Less => 10,
            OpCode::LessEqual => 11,
            OpCode::Greater => 12,
            OpCode::GreaterEqual => 13,
            OpCode::LogicalAnd => 14,
            OpCode::LogicalOr => 15,
            OpCode::LogicalNot => 16,
            OpCode::Unit => 17,
            OpCode::True => 18,
            OpCode::False => 19,
        }
    }

    /// The number of operand bytes that follow the opcode byte.
    pub open spec fn spec_arity(self) -> nat {
        match self {
            OpCode::GetConstant => 1,
            OpCode::GetConstantLong => 3,
            _ => 0,
        }
    }

    /// The instruction that a byte encodes, if any.
    pub open spec fn decoded(b: u8) -> Option<OpCode> {
        if b == 0 { Some(OpCode::Return) }
        else if b == 1 { Some(OpCode::GetConstant) }
        else if b == 2 { Some(OpCode::GetConstantLong) }
        else if b == 3 { Some(OpCode::Negate) }
        else if b == 4 { Some(OpCode::Add) }
        else if b == 5 { Some(OpCode::Subtract) }
        else if b == 6 { Some(OpCode::Multiply) }
        else if b == 7 { Some(OpCode::Divide) }
        else if b == 8 { Some(OpCode::Equal) }
        else if b == 9 { Some(OpCode::NotEqual) }
        else if b == 10 { Some(OpCode::Less) }
        else if b == 11 { Some(OpCode::LessEqual) }
        else if b == 12 { Some(OpCode::Greater) }
        else if b == 13 { Some(OpCode::GreaterEqual) }
        else if b == 14 { Some(OpCode::LogicalAnd) }
        else if b == 15 { Some(OpCode::LogicalOr) }
        else if b == 16 { Some(OpCode::LogicalNot) }
        else if b == 17 { Some(OpCode::Unit) }
        else if b == 18 { Some(OpCode::True) }
        else if b == 19 { Some(OpCode::False) }
        else { None }
    }

    /// How many operand bytes follow this instruction's opcode byte.
    pub fn arity(&self) -> (r: usize)
        ensures
            r == self.spec_arity(),
    {
        match self {
            OpCode::GetConstant => 1,
            OpCode::GetConstantLong => 3,
            _ => 0,
        }
    }

    /// The byte that encodes this instruction.
    pub fn to_byte(&self) -> (r: u8)
        ensures
            r == self.byte(),
    {
        match self {
            OpCode::Return => 0,
            OpCode::GetConstant => 1,
            OpCode::GetConstantLong => 2,
            OpCode::Negate => 3,
            OpCode::Add => 4,
            OpCode::Subtract => 5,
            OpCode::Multiply => 6,
            OpCode::Divide => 7,
            OpCode::Equal => 8,
            OpCode::NotEqual => 9,
            OpCode::Less => 10,
            OpCode::LessEqual => 11,
            OpCode::Greater => 12,
            OpCode::GreaterEqual => 13,
            OpCode::LogicalAnd => 14,
            OpCode::LogicalOr => 15,
            OpCode::LogicalNot => 16,
            OpCode::Unit => 17,
            OpCode::True => 18,
            OpCode::False => 19,
        }
    }

    /// The instruction that `value` encodes, or `None` for a byte that
    /// encodes none.
    pub fn from_byte(value: u8) -> (r: Option<OpCode>)
        ensures
            r == OpCode::decoded(value),
    {
        match value {
            0 => Some(OpCode::Return),
            1 => Some(OpCode::GetConstant),
            2 => Some(OpCode::GetConstantLong),
            3 => Some(OpCode::Negate),
            4 => Some(OpCode::Add),
            5 => Some(OpCode::Subtract),
            6 => Some(OpCode::Multiply),
            7 => Some(OpCode::Divide),
            8 => Some(OpCode::Equal),
            9 => Some(OpCode::NotEqual),
            10 => Some(OpCode::Less),
            11 => Some(OpCode::LessEqual),
            12 => Some(OpCode::Greater),
            13 => Some(OpCode::GreaterEqual),
            14 => Some(OpCode::LogicalAnd),
            15 => Some(OpCode::LogicalOr),
            16 => Some(OpCode::LogicalNot),
            17 => Some(OpCode::Unit),
            18 => Some(OpCode::True),
            19 => Some(OpCode::False),
            _ => None,
        }
    }
}

/// Decoding a byte that encodes an instruction and encoding the result again
/// gives the same byte back.
pub proof fn lemma_decode_encode(b: u8)
    requires
        b < OPCODE_COUNT,
    ensures
        OpCode::decoded(b) is Some,
        OpCode::decoded(b).unwrap().byte() == b,
{
}

/// Encoding an instruction and decoding the byte gives the same instruction.
pub proof fn lemma_encode_decode(op: OpCode)
    ensures
        op.byte() < OPCODE_COUNT,
        OpCode::decoded(op.byte()) == Some(op),
{
}

/// A byte outside the instruction range decodes to no instruction at all.
pub proof fn lemma_decode_rejects(b: u8)
    requires
        b >= OPCODE_COUNT,
    ensures
        OpCode::decoded(b) is None,
{
}

/// One decoded instruction: what it is, its constant-pool index operand (zero
/// for an instruction without operands), and the offset of the next one.
#[derive(Debug, Clone, Copy, PartialEq, Eq, Structural)]
pub struct Instruction {
    pub op: OpCode,
    pub index: usize,
    pub next: usize,
}

/// The unsigned number that three bytes give in big-endian order.
pub open spec fn be24(b1: u8, b2: u8, b3: u8) -> int {
    b1 as int * 65536 + b2 as int * 256 + b3 as int
}

/// The index operand of `op` whose opcode byte stands at `offset`.
pub open spec fn operand_at(op: OpCode, code: Seq<u8>, offset: int) -> int {
    match op {
        OpCode::GetConstant => code[offset + 1] as int,
        OpCode::GetConstantLong => be24(code[offset + 1], code[offset + 2], code[offset + 3]),
        _ => 0,
    }
}

/// What decoding the instruction at `offset` of `code` gives.
pub open spec fn decode_at(code: Seq<u8>, offset: usize) -> Result<Instruction, VmError> {
    if offset >= code.len() {
        Err(VmError::TruncatedInstruction { offset })
    } else {
        match OpCode::decoded(code[offset as int]) {
            None => Err(VmError::InvalidOpcode { offset, byte: code[offset as int] }),
            Some(op) => if offset + op.spec_arity() >= code.len() {
                Err(VmError::TruncatedInstruction { offset })
            } else {
                Ok(Instruction {
                    op,
                    index: operand_at(op, code, offset as int) as usize,
                    next: (offset + 1 + op.spec_arity()) as usize,
                })
            },
        }
    }
}

/// Decodes the instruction whose opcode byte stands at `offset`, with its
/// operand bytes, without reading past the end of `code`.
pub fn decode(code: &[u8], offset: usize) -> (r: Result<Instruction, VmError>)
    ensures
        r == decode_at(code@, offset),
        r matches Ok(ins) ==> offset < ins.next <= code@.len(),
{
    if offset >= code.len() {
        return Err(VmError::TruncatedInstruction { offset });
    }
    let byte = code[offset];
    let op = match OpCode::from_byte(byte) {
        Some(op) => op,
        None => return Err(VmError::InvalidOpcode { offset, byte }),
    };
    let arity = op.arity();
    if arity >= code.len() - offset {
        return Err(VmError::TruncatedInstruction { offset });
    }
    let index: usize = match op {
        OpCode::GetConstant => code[offset + 1] as usize,
        OpCode::GetConstantLong => {
            code[offset + 1] as usize * 65536 + code[offset + 2] as usize * 256
                + code[offset + 3] as usize
        },
        _ => 0,
    };
    Ok(Instruction { op, index, next: offset + 1 + arity })
}

/// A byte outside the instruction range, standing where an instruction is
/// expected, is reported as an invalid opcode.
pub proof fn lemma_decode_invalid_opcode(code: Seq<u8>, offset: usize)
    requires
        offset < code.len(),
        code[offset as int] >= OPCODE_COUNT,
    ensures
        decode_at(code, offset) == Err::<Instruction, VmError>(
            VmError::InvalidOpcode { offset, byte: code[offset as int] },
        ),
{
}

/// A `GetConstant` opcode that is the last byte of the code is reported as a
/// truncated instruction.
pub proof fn lemma_decode_truncated_get_constant(code: Seq<u8>)
    requires
        0 < code.len() <= usize::MAX,
        code.last() == OpCode::GetConstant.byte(),
    ensures
        decode_at(code, (code.len() - 1) as usize) == Err::<Instruction, VmError>(
            VmError::TruncatedInstruction { offset: (code.len() - 1) as usize },
        ),
{
}

} // verus!
