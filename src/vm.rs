use vstd::prelude::*;
use crate::chunk::Chunk;
use crate::error::VmError;
use crate::opcode::{be24, decode, decode_at, Instruction, OpCode};
use crate::value::Value;

verus! {

/// The quotient of `x` by `d`, rounded toward zero.
pub open spec fn quotient(x: int, d: int) -> int {
    let q = (if x < 0 { -x } else { x }) / (if d < 0 { -d } else { d });
    if (x < 0) != (d < 0) { -q } else { q }
}

/// `n` as a `Number`, or an overflow of `op` when it does not fit.
pub open spec fn number_or_overflow(n: int, op: OpCode, offset: usize) -> Result<Value, VmError> {
    if i64::MIN <= n <= i64::MAX {
        Ok(Value::Number(n as i64))
    } else {
        Err(VmError::ArithmeticOverflow { offset, op })
    }
}

/// What a one-operand instruction makes of its operand.
pub open spec fn unary_result(op: OpCode, v: Value, offset: usize) -> Result<Value, VmError> {
    match (op, v) {
        (OpCode::Negate, Value::Number(n)) => number_or_overflow(-n, op, offset),
        (OpCode::LogicalNot, Value::Bool(b)) => Ok(Value::Bool(!b)),
        _ => Err(VmError::TypeMismatch { offset, op }),
    }
}

/// What a two-operand instruction makes of its left and right operands.
pub open spec fn binary_result(op: OpCode, l: Value, r: Value, offset: usize) -> Result<Value, VmError> {
    match (l, r) {
        (Value::Number(a), Value::Number(b)) => match op {
            OpCode::Add => number_or_overflow(a + b, op, offset),
            OpCode::Subtract => number_or_overflow(a - b, op, offset),
            OpCode::Multiply => number_or_overflow(a * b, op, offset),
            OpCode::Divide => if b == 0 {
                Err(VmError::DivisionByZero { offset })
            } else {
                number_or_overflow(quotient(a as int, b as int), op, offset)
            },
            OpCode::Equal => Ok(Value::Bool(a == b)),
            OpCode::NotEqual => Ok(Value::Bool(a != b)),
            OpCode::Less => Ok(Value::Bool(a < b)),
            OpCode::LessEqual => Ok(Value::Bool(a <= b)),
            OpCode::Greater => Ok(Value::Bool(a > b)),
            OpCode::GreaterEqual => Ok(Value::Bool(a >= b)),
            _ => Err(VmError::TypeMismatch { offset, op }),
        },
        (Value::Bool(a), Value::Bool(b)) => match op {
            OpCode::Equal => Ok(Value::Bool(a == b)),
            OpCode::NotEqual => Ok(Value::Bool(a != b)),
            OpCode::LogicalAnd => Ok(Value::Bool(a && b)),
            OpCode::LogicalOr => Ok(Value::Bool(a || b)),
            _ => Err(VmError::TypeMismatch { offset, op }),
        },
        (Value::Unit, Value::Unit) => match op {
            OpCode::Equal => Ok(Value::Bool(true)),
            OpCode::NotEqual => Ok(Value::Bool(false)),
            _ => Err(VmError::TypeMismatch { offset, op }),
        },
        _ => Err(VmError::TypeMismatch { offset, op }),
    }
}

/// How many operands an instruction pops from the stack.
pub open spec fn pops(op: OpCode) -> nat {
    match op {
        OpCode::Return | OpCode::Negate | OpCode::LogicalNot => 1,
        OpCode::GetConstant | OpCode::GetConstantLong | OpCode::Unit | OpCode::True
        | OpCode::False => 0,
        _ => 2,
    }
}

/// The stack after the instruction `ins` at `offset` runs on `stack`, for
/// every instruction but `Return`.
pub open spec fn apply(ins: Instruction, constants: Seq<Value>, stack: Seq<Value>, offset: usize) -> Result<Seq<Value>, VmError> {
    let op = ins.op;
    if stack.len() < pops(op) {
        Err(VmError::StackUnderflow { offset, op })
    } else {
        match op {
            OpCode::GetConstant | OpCode::GetConstantLong => if ins.index < constants.len() {
                Ok(stack.push(constants[ins.index as int]))
            } else {
                Err(VmError::ConstantIndexOutOfRange { offset, index: ins.index })
            },
            OpCode::Unit => Ok(stack.push(Value::Unit)),
            OpCode::True => Ok(stack.push(Value::Bool(true))),
            OpCode::False => Ok(stack.push(Value::Bool(false))),
            OpCode::Negate | OpCode::LogicalNot => match unary_result(op, stack.last(), offset) {
                Ok(v) => Ok(stack.drop_last().push(v)),
                Err(e) => Err(e),
            },
            OpCode::Return => Ok(stack),
            _ => match binary_result(
                op,
                stack[stack.len() - 2],
                stack[stack.len() - 1],
                offset,
            ) {
                Ok(v) => Ok(stack.subrange(0, stack.len() - 2).push(v)),
                Err(e) => Err(e),
            },
        }
    }
}

/// What running `code` from `ip` with `stack` yields: the value that the
/// first `Return` pops, or the first error.
pub open spec fn run(code: Seq<u8>, constants: Seq<Value>, ip: usize, stack: Seq<Value>) -> Result<Value, VmError>
    decreases code.len() - ip,
{
    match decode_at(code, ip) {
        Err(e) => Err(e),
        Ok(ins) => if ins.op == OpCode::Return {
            if stack.len() == 0 {
                Err(VmError::StackUnderflow { offset: ip, op: OpCode::Return })
            } else {
                Ok(stack.last())
            }
        } else {
            match apply(ins, constants, stack, ip) {
                Err(e) => Err(e),
                Ok(next_stack) => if ip < ins.next <= code.len() {
                    run(code, constants, ins.next, next_stack)
                } else {
                    Err(VmError::TruncatedInstruction { offset: ip })
                },
            }
        },
    }
}

/// What executing a chunk from its first byte with an empty stack yields.
pub open spec fn result_of(chunk: &Chunk) -> Result<Value, VmError> {
    run(chunk.code@, chunk.constants@, 0, Seq::empty())
}

/// Negates a number or a boolean, as `Negate` and `LogicalNot` do.
pub fn unary_op(op: OpCode, v: Value, offset: usize) -> (r: Result<Value, VmError>)
    ensures
        r == unary_result(op, v, offset),
{
    match (op, v) {
        (OpCode::Negate, Value::Number(n)) => match 0i64.checked_sub(n) {
            Some(m) => Ok(Value::Number(m)),
            None => Err(VmError::ArithmeticOverflow { offset, op }),
        },
        (OpCode::LogicalNot, Value::Bool(b)) => Ok(Value::Bool(!b)),
        _ => Err(VmError::TypeMismatch { offset, op }),
    }
}

/// `n` as a `Number`, or an overflow of `op` when the checked operation
/// that computed it overflowed.
fn number_or_error(n: Option<i64>, op: OpCode, offset: usize) -> (r: Result<Value, VmError>)
    ensures
        n matches Some(m) ==> r == Ok::<Value, VmError>(Value::Number(m)),
        n is None ==> r == Err::<Value, VmError>(VmError::ArithmeticOverflow { offset, op }),
{
    match n {
        Some(m) => Ok(Value::Number(m)),
        None => Err(VmError::ArithmeticOverflow { offset, op }),
    }
}

/// Combines a left and a right operand as a two-operand instruction does.
pub fn binary_op(op: OpCode, l: Value, r: Value, offset: usize) -> (res: Result<Value, VmError>)
    ensures
        res == binary_result(op, l, r, offset),
{
    match (l, r) {
        (Value::Number(a), Value::Number(b)) => match op {
            OpCode::Add => number_or_error(a.checked_add(b), op, offset),
            OpCode::Subtract => number_or_error(a.checked_sub(b), op, offset),
            OpCode::Multiply => number_or_error(a.checked_mul(b), op, offset),
            OpCode::Divide => if b == 0 {
                Err(VmError::DivisionByZero { offset })
            } else {
                number_or_error(a.checked_div(b), op, offset)
            },
            OpCode::Equal => Ok(Value::Bool(a == b)),
            OpCode::NotEqual => Ok(Value::Bool(a != b)),
            OpCode::Less => Ok(Value::Bool(a < b)),
            OpCode::LessEqual => Ok(Value::Bool(a <= b)),
            OpCode::Greater => Ok(Value::Bool(a > b)),
            OpCode::GreaterEqual => Ok(Value::Bool(a >= b)),
            _ => Err(VmError::TypeMismatch { offset, op }),
        },
        (Value::Bool(a), Value::Bool(b)) => match op {
            OpCode::Equal => Ok(Value::Bool(a == b)),
            OpCode::NotEqual => Ok(Value::Bool(a != b)),
            OpCode::LogicalAnd => Ok(Value::Bool(a && b)),
            OpCode::LogicalOr => Ok(Value::Bool(a || b)),
            _ => Err(VmError::TypeMismatch { offset, op }),
        },
        (Value::Unit, Value::Unit) => match op {
            OpCode::Equal => Ok(Value::Bool(true)),
            OpCode::NotEqual => Ok(Value::Bool(false)),
            _ => Err(VmError::TypeMismatch { offset, op }),
        },
        _ => Err(VmError::TypeMismatch { offset, op }),
    }
}

/// Runs the instruction `ins` at `offset` on `stack`, for every instruction
/// but `Return`; on an error the stack is left in an unspecified state.
pub fn apply_instruction(ins: &Instruction, constants: &[Value], stack: &mut Vec<Value>, offset: usize) -> (r: Result<(), VmError>)
    requires
        ins.op != OpCode::Return,
    ensures
        match apply(*ins, constants@, old(stack)@, offset) {
            Ok(s) => r is Ok && final(stack)@ == s,
            Err(e) => r == Err::<(), VmError>(e),
        },
{
    let op = ins.op;
    match op {
        OpCode::GetConstant | OpCode::GetConstantLong => {
            if ins.index < constants.len() {
                stack.push(constants[ins.index]);
                Ok(())
            } else {
                Err(VmError::ConstantIndexOutOfRange { offset, index: ins.index })
            }
        },
        OpCode::Unit => {
            stack.push(Value::Unit);
            Ok(())
        },
        OpCode::True => {
            stack.push(Value::Bool(true));
            Ok(())
        },
        OpCode::False => {
            stack.push(Value::Bool(false));
            Ok(())
        },
        OpCode::Negate | OpCode::LogicalNot => {
            let v = match stack.pop() {
                Some(v) => v,
                None => return Err(VmError::StackUnderflow { offset, op }),
            };
            let w = unary_op(op, v, offset)?;
            stack.push(w);
            Ok(())
        },
        _ => {
            if stack.len() < 2 {
                return Err(VmError::StackUnderflow { offset, op });
            }
            let ghost before = stack@;
            let right = stack.pop().unwrap();
            let left = stack.pop().unwrap();
            assert(stack@ == before.subrange(0, before.len() - 2));
            let w = binary_op(op, left, right, offset)?;
            stack.push(w);
            Ok(())
        },
    }
}

/// Runs a chunk from its first byte with an empty stack, until a `Return`
/// yields the top of the stack or an instruction fails.
pub fn execute(chunk: &Chunk) -> (r: Result<Value, VmError>)
    ensures
        r == result_of(chunk),
{
    let mut stack: Vec<Value> = Vec::new();
    let mut ip: usize = 0;
    loop
        invariant
            ip <= chunk.code@.len(),
            run(chunk.code@, chunk.constants@, ip, stack@) == result_of(chunk),
        decreases chunk.code@.len() - ip,
    {
        let ins = match decode(chunk.code.as_slice(), ip) {
            Ok(ins) => ins,
            Err(e) => return Err(e),
        };
        if ins.op == OpCode::Return {
            return match stack.pop() {
                Some(v) => Ok(v),
                None => Err(VmError::StackUnderflow { offset: ip, op: OpCode::Return }),
            };
        }
        match apply_instruction(&ins, chunk.constants.as_slice(), &mut stack, ip) {
            Ok(()) => {},
            Err(e) => return Err(e),
        }
        ip = ins.next;
    }
}

/// `Return` as the first instruction, on the empty stack that execution
/// starts with, is a stack underflow.
pub proof fn lemma_return_on_empty_stack(code: Seq<u8>, constants: Seq<Value>)
    requires
        0 < code.len() <= usize::MAX,
        code[0] == OpCode::Return.byte(),
    ensures
        run(code, constants, 0, Seq::empty()) == Err::<Value, VmError>(
            VmError::StackUnderflow { offset: 0, op: OpCode::Return },
        ),
{
}

/// `GetConstant i; Return` yields constant `i` when the pool has it, and is
/// otherwise an out-of-range constant index.
pub proof fn lemma_get_constant_return(b: u8, constants: Seq<Value>)
    ensures
        ({
            let code = seq![OpCode::GetConstant.byte(), b, OpCode::Return.byte()];
            &&& b < constants.len() ==> run(code, constants, 0, Seq::empty())
                == Ok::<Value, VmError>(constants[b as int])
            &&& b >= constants.len() ==> run(code, constants, 0, Seq::empty())
                == Err::<Value, VmError>(
                VmError::ConstantIndexOutOfRange { offset: 0, index: b as usize },
            )
        }),
{
    let code = seq![OpCode::GetConstant.byte(), b, OpCode::Return.byte()];
    if b < constants.len() {
        let s = Seq::<Value>::empty().push(constants[b as int]);
        assert(run(code, constants, 0, Seq::empty()) == run(code, constants, 2, s));
    }
}

/// `GetConstantLong` with the three big-endian index bytes `b1 b2 b3`, then
/// `Return`, yields the constant at that 24-bit index when the pool has it,
/// and is otherwise an out-of-range constant index.
pub proof fn lemma_get_constant_long_return(b1: u8, b2: u8, b3: u8, constants: Seq<Value>)
    ensures
        ({
            let code = seq![OpCode::GetConstantLong.byte(), b1, b2, b3, OpCode::Return.byte()];
            let i = be24(b1, b2, b3);
            &&& i < constants.len() ==> run(code, constants, 0, Seq::empty())
                == Ok::<Value, VmError>(constants[i])
            &&& i >= constants.len() ==> run(code, constants, 0, Seq::empty())
                == Err::<Value, VmError>(
                VmError::ConstantIndexOutOfRange { offset: 0, index: i as usize },
            )
        }),
{
    let code = seq![OpCode::GetConstantLong.byte(), b1, b2, b3, OpCode::Return.byte()];
    let i = be24(b1, b2, b3);
    if i < constants.len() {
        let s = Seq::<Value>::empty().push(constants[i]);
        assert(run(code, constants, 0, Seq::empty()) == run(code, constants, 4, s));
    }
}

/// Loading constants 0 and 1 and applying a two-operand instruction, then
/// `Return`, yields exactly what that instruction makes of the two constants,
/// the first as its left operand: its value or its error.
pub proof fn lemma_binary_program(op: OpCode, constants: Seq<Value>)
    requires
        constants.len() >= 2,
        pops(op) == 2,
    ensures
        run(
            seq![
                OpCode::GetConstant.byte(), 0, OpCode::GetConstant.byte(), 1, op.byte(),
                OpCode::Return.byte()
            ],
            constants,
            0,
            Seq::empty(),
        ) == binary_result(op, constants[0], constants[1], 4),
{
    let code = seq![
        OpCode::GetConstant.byte(), 0, OpCode::GetConstant.byte(), 1, op.byte(),
        OpCode::Return.byte()
    ];
    let s1 = Seq::<Value>::empty().push(constants[0]);
    let s2 = s1.push(constants[1]);
    assert(run(code, constants, 0, Seq::empty()) == run(code, constants, 2, s1));
    assert(run(code, constants, 2, s1) == run(code, constants, 4, s2));
    assert(s2.subrange(0, 0) == Seq::<Value>::empty());
    match binary_result(op, constants[0], constants[1], 4) {
        Ok(v) => {
            assert(run(code, constants, 4, s2) == run(code, constants, 5, Seq::<Value>::empty().push(v)));
        },
        Err(e) => {},
    }
}

} // verus!
