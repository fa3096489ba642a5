use vstd::prelude::*;
use crate::opcode::OpCode;

verus! {

/// Why decoding or running a chunk stopped. Each kind carries the byte offset
/// of the instruction at fault, so that a caller can look up its source line.
#[derive(Debug, Clone, Copy, PartialEq, Eq, Structural)]
pub enum VmError {
    /// The byte at `offset` encodes no instruction.
    InvalidOpcode { offset: usize, byte: u8 },
    /// The instruction at `offset` needs more bytes than the code holds, or
    /// the code ends at `offset` where an instruction was expected.
    TruncatedInstruction { offset: usize },
    /// The instruction at `offset` names a constant the pool does not have.
    ConstantIndexOutOfRange { offset: usize, index: usize },
    /// The instruction at `offset` needs more operands than the stack holds.
    StackUnderflow { offset: usize, op: OpCode },
    /// An operand of the instruction at `offset` is of the wrong variant.
    TypeMismatch { offset: usize, op: OpCode },
    /// The `Divide` at `offset` has a zero divisor.
    DivisionByZero { offset: usize },
    /// The result of the instruction at `offset` does not fit a `Number`.
    ArithmeticOverflow { offset: usize, op: OpCode },
}

} // verus!
