//! Human-readable rendering of a chunk's instruction stream.
use vstd::prelude::*;
use crate::chunk::{line_at, Chunk};
use crate::error::VmError;
use crate::opcode::{decode, decode_at, operand_at, OpCode};
use crate::text::{decimal, decimal4, push_decimal, push_decimal4, push_value, value_text};
use crate::value::Value;

verus! {

/// What stands between the columns of a disassembly line.
pub open spec fn sep() -> Seq<char> {
    " | "@
}

impl OpCode {
    /// The symbolic name of the instruction.
    pub open spec fn spec_name(self) -> Seq<char> {
        match self {
            OpCode::Return => "Return"@,
            OpCode::GetConstant => "GetConstant"@,
            OpCode::GetConstantLong => "GetConstantLong"@,
            OpCode::Negate => "Negate"@,
            OpCode::Add => "Add"@,
            OpCode::Subtract => "Subtract"@,
            OpCode::Multiply => "Multiply"@,
            OpCode::Divide => "Divide"@,
            OpCode::Equal => "Equal"@,
            OpCode::NotEqual => "NotEqual"@,
            OpCode::Less => "Less"@,
            OpCode::LessEqual => "LessEqual"@,
            OpCode::Greater => "Greater"@,
            OpCode::GreaterEqual => "GreaterEqual"@,
            OpCode::LogicalAnd => "LogicalAnd"@,
            OpCode::LogicalOr => "LogicalOr"@,
            OpCode::LogicalNot => "LogicalNot"@,
            OpCode::Unit => "Unit"@,
            OpCode::True => "True"@,
            OpCode::False => "False"@,
        }
    }

    /// True for the two instructions that load a constant.
    pub open spec fn loads_constant(self) -> bool {
        self == OpCode::GetConstant || self == OpCode::GetConstantLong
    }

    /// The symbolic name of the instruction.
    pub fn name(&self) -> (r: &'static str)
        ensures
            r@ == self.spec_name(),
    {
        match self {
            OpCode::Return => "Return",
            OpCode::GetConstant => "GetConstant",
            OpCode::GetConstantLong => "GetConstantLong",
            OpCode::Negate => "Negate",
            OpCode::Add => "Add",
            OpCode::Subtract => "Subtract",
            OpCode::Multiply => "Multiply",
            OpCode::Divide => "Divide",
            OpCode::Equal => "Equal",
            OpCode::NotEqual => "NotEqual",
            OpCode::Less => "Less",
            OpCode::LessEqual => "LessEqual",
            OpCode::Greater => "Greater",
            OpCode::GreaterEqual => "GreaterEqual",
            OpCode::LogicalAnd => "LogicalAnd",
            OpCode::LogicalOr => "LogicalOr",
            OpCode::LogicalNot => "LogicalNot",
            OpCode::Unit => "Unit",
            OpCode::True => "True",
            OpCode::False => "False",
        }
    }

    /// Renders the instruction `self` whose opcode byte stands at `offset` of
    /// the chunk: a line with the source line (or `...`), the opcode byte, the
    /// name and, for a constant load, its index and the constant; and the
    /// offset of the next instruction.
    pub fn disassemble(&self, chunk: &Chunk, offset: usize) -> (r: Result<(String, usize), VmError>)
        ensures
            match disassembly_at(chunk, *self, offset) {
                Ok((text, next)) => r matches Ok((s, n)) && s@ == text && n == next,
                Err(e) => r == Err::<(String, usize), VmError>(e),
            },
    {
        let arity = self.arity();
        if offset >= chunk.code.len() || arity >= chunk.code.len() - offset {
            return Err(VmError::TruncatedInstruction { offset });
        }
        let mut out = String::new();
        match chunk.get_line_no(offset) {
            Some(line) => push_decimal4(&mut out, line as u64),
            None => out.append("..."),
        }
        out.append(" | ");
        push_decimal4(&mut out, self.to_byte() as u64);
        out.append(" | ");
        out.append(self.name());
        let ghost head = out@;
        if *self == OpCode::GetConstant || *self == OpCode::GetConstantLong {
            let index: usize = if *self == OpCode::GetConstant {
                chunk.code[offset + 1] as usize
            } else {
                chunk.code[offset + 1] as usize * 65536 + chunk.code[offset + 2] as usize * 256
                    + chunk.code[offset + 3] as usize
            };
            let constant = match chunk.get_constant(index) {
                Some(v) => v,
                None => return Err(VmError::ConstantIndexOutOfRange { offset, index }),
            };
            out.append(" ");
            push_decimal(&mut out, index as u64);
            out.append(" -> ");
            push_value(&mut out, constant);
            assert(out@ == head + operand_text(index as nat, constant));
        }
        Ok((out, offset + 1 + arity))
    }
}

/// The text of a constant load's operand: its index and the constant.
pub open spec fn operand_text(index: nat, v: Value) -> Seq<char> {
    " "@ + decimal(index) + " -> "@ + value_text(v)
}

/// The source-line column: four digits, or `...` where none is recorded.
pub open spec fn line_text(line: Option<usize>) -> Seq<char> {
    match line {
        Some(l) => decimal4(l as nat),
        None => "..."@,
    }
}

/// The line that renders `op` at `offset` of `chunk`, and the offset of the
/// next instruction; or why the instruction cannot be rendered.
pub open spec fn disassembly_at(chunk: &Chunk, op: OpCode, offset: usize) -> Result<(Seq<char>, usize), VmError> {
    let code = chunk.code@;
    if offset + op.spec_arity() >= code.len() {
        Err(VmError::TruncatedInstruction { offset })
    } else {
        let head = line_text(line_at(chunk.lines@, offset)) + sep() + decimal4(op.byte() as nat)
            + sep() + op.spec_name();
        let next = (offset + 1 + op.spec_arity()) as usize;
        if op.loads_constant() {
            let index = operand_at(op, code, offset as int);
            if index < chunk.constants@.len() {
                Ok((head + operand_text(index as nat, chunk.constants@[index]), next))
            } else {
                Err(VmError::ConstantIndexOutOfRange { offset, index: index as usize })
            }
        } else {
            Ok((head, next))
        }
    }
}

/// The lines that render the instructions from `offset` to the end of the
/// code, or the first reason one of them cannot be rendered.
pub open spec fn listing_from(chunk: &Chunk, offset: usize) -> Result<Seq<Seq<char>>, VmError>
    decreases chunk.code@.len() - offset,
{
    if offset >= chunk.code@.len() {
        Ok(Seq::empty())
    } else {
        match decode_at(chunk.code@, offset) {
            Err(e) => Err(e),
            Ok(ins) => match disassembly_at(chunk, ins.op, offset) {
                Err(e) => Err(e),
                Ok((text, next)) => if offset < next {
                    match listing_from(chunk, next) {
                        Ok(rest) => Ok(seq![text] + rest),
                        Err(e) => Err(e),
                    }
                } else {
                    Err(VmError::TruncatedInstruction { offset })
                },
            },
        }
    }
}

/// The lines that render a whole chunk, one per instruction.
pub open spec fn listing(chunk: &Chunk) -> Result<Seq<Seq<char>>, VmError> {
    listing_from(chunk, 0)
}

/// `done` followed by what `rest` lists, or the error of `rest`.
pub open spec fn after(done: Seq<Seq<char>>, rest: Result<Seq<Seq<char>>, VmError>) -> Result<Seq<Seq<char>>, VmError> {
    match rest {
        Ok(r) => Ok(done + r),
        Err(e) => Err(e),
    }
}

/// The views of a sequence of strings.
pub open spec fn texts(v: Seq<String>) -> Seq<Seq<char>> {
    v.map_values(|s: String| s@)
}

/// Renders every instruction of the chunk, from its first byte to its end.
pub fn disassemble_chunk(chunk: &Chunk) -> (r: Result<Vec<String>, VmError>)
    ensures
        match listing(chunk) {
            Ok(lines) => r matches Ok(v) && texts(v@) == lines,
            Err(e) => r == Err::<Vec<String>, VmError>(e),
        },
{
    let mut out: Vec<String> = Vec::new();
    let mut offset: usize = 0;
    while offset < chunk.code.len()
        invariant
            offset <= chunk.code@.len(),
            listing(chunk) == after(texts(out@), listing_from(chunk, offset)),
        decreases chunk.code@.len() - offset,
    {
        let ins = match decode(chunk.code.as_slice(), offset) {
            Ok(ins) => ins,
            Err(e) => return Err(e),
        };
        let (text, next) = match ins.op.disassemble(chunk, offset) {
            Ok(pair) => pair,
            Err(e) => return Err(e),
        };
        let ghost done = texts(out@);
        out.push(text);
        proof {
            assert(texts(out@) == done + seq![text@]);
            match listing_from(chunk, next) {
                Ok(rest) => assert(done + (seq![text@] + rest) == (done + seq![text@]) + rest),
                Err(e) => {},
            }
        }
        offset = next;
    }
    assert(texts(out@) + Seq::<Seq<char>>::empty() == texts(out@));
    Ok(out)
}

/// A chunk whose last byte is a `GetConstant` opcode cannot render it: the
/// instruction is reported as truncated rather than read past the end.
pub proof fn lemma_disassemble_truncated_get_constant(chunk: &Chunk)
    requires
        chunk.code.len() > 0,
        chunk.code@.last() == OpCode::GetConstant.byte(),
    ensures
        disassembly_at(chunk, OpCode::GetConstant, (chunk.code.len() - 1) as usize)
            == Err::<(Seq<char>, usize), VmError>(
            VmError::TruncatedInstruction { offset: (chunk.code.len() - 1) as usize },
        ),
{
}

} // verus!
