use vstd::prelude::*;
use crate::opcode::OpCode;
use crate::value::Value;

verus! {

/// The largest number of constants a chunk may hold: a 24-bit index must
/// reach each of them.
pub const MAX_CONSTANTS: usize = 16777216;

/// A unit of compiled code: the instruction stream, the constant pool and,
/// for diagnostics, the source line of each recorded opcode byte.
pub struct Chunk {
    /// Opcode bytes interleaved with their operand bytes.
    pub code: Vec<u8>,
    /// The constant pool, indexed by position; duplicates are allowed.
    pub constants: Vec<Value>,
    /// Pairs of (offset of an opcode byte, 1-based source line).
    pub lines: Vec<(usize, usize)>,
}

/// The line of the first entry at or after position `i` that is recorded
/// for `offset`.
pub open spec fn line_from(lines: Seq<(usize, usize)>, i: int, offset: usize) -> Option<usize>
    decreases lines.len() - i,
{
    if i < 0 || i >= lines.len() {
        None
    } else if lines[i].0 == offset {
        Some(lines[i].1)
    } else {
        line_from(lines, i + 1, offset)
    }
}

/// The source line recorded for the opcode byte at `offset`, if any.
pub open spec fn line_at(lines: Seq<(usize, usize)>, offset: usize) -> Option<usize> {
    line_from(lines, 0, offset)
}

impl Chunk {
    /// What every chunk built through these methods keeps: the pool fits a
    /// 24-bit index, and each recorded line belongs to an offset of the code.
    pub open spec fn well_formed(&self) -> bool {
        &&& self.constants@.len() <= MAX_CONSTANTS
        &&& forall|i: int| 0 <= i < self.lines@.len() ==> #[trigger] self.lines@[i].0 < self.code@.len()
    }

    /// An empty chunk.
    pub fn new() -> (r: Chunk)
        ensures
            r.code@ == Seq::<u8>::empty(),
            r.constants@ == Seq::<Value>::empty(),
            r.lines@ == Seq::<(usize, usize)>::empty(),
            r.well_formed(),
    {
        Chunk { code: Vec::new(), constants: Vec::new(), lines: Vec::new() }
    }

    /// Appends raw bytes to the code, with no check of what they encode.
    pub fn write_bytes(&mut self, bytes: &[u8])
        requires
            old(self).code.len() + bytes@.len() <= usize::MAX,
        ensures
            final(self).code@ == old(self).code@ + bytes@,
            final(self).constants@ == old(self).constants@,
            final(self).lines@ == old(self).lines@,
            old(self).well_formed() ==> final(self).well_formed(),
    {
        let ghost start = self.code@;
        let mut i: usize = 0;
        while i < bytes.len()
            invariant
                i <= bytes@.len(),
                self.code@ == start + bytes@.subrange(0, i as int),
                self.constants@ == old(self).constants@,
                self.lines@ == old(self).lines@,
            decreases bytes@.len() - i,
        {
            self.code.push(bytes[i]);
            i = i + 1;
            assert(bytes@.subrange(0, i as int) == bytes@.subrange(0, i - 1).push(bytes@[i - 1]));
        }
        assert(bytes@.subrange(0, i as int) == bytes@);
    }

    /// Appends an instruction, its opcode byte followed by `operands`, and
    /// records `line` as the source line of that opcode byte.
    pub fn write_instruction(&mut self, op: OpCode, operands: &[u8], line: usize)
        requires
            old(self).code.len() + 1 + operands@.len() <= usize::MAX,
        ensures
            final(self).code@ == old(self).code@ + seq![op.byte()] + operands@,
            final(self).constants@ == old(self).constants@,
            final(self).lines@ == old(self).lines@.push((old(self).code.len(), line)),
            old(self).well_formed() ==> final(self).well_formed(),
    {
        let start = self.code.len();
        self.code.push(op.to_byte());
        self.write_bytes(operands);
        self.lines.push((start, line));
    }

    /// Appends a constant and returns its index, or returns `None` and leaves
    /// the chunk as it was when the pool already holds `MAX_CONSTANTS`.
    pub fn add_constant(&mut self, value: Value) -> (r: Option<usize>)
        ensures
            final(self).code@ == old(self).code@,
            final(self).lines@ == old(self).lines@,
            old(self).constants.len() < MAX_CONSTANTS ==> r == Some(old(self).constants.len())
                && final(self).constants@ == old(self).constants@.push(value),
            old(self).constants.len() >= MAX_CONSTANTS ==> r is None
                && final(self).constants@ == old(self).constants@,
            old(self).well_formed() ==> final(self).well_formed(),
    {
        if self.constants.len() < MAX_CONSTANTS {
            let index = self.constants.len();
            self.constants.push(value);
            Some(index)
        } else {
            None
        }
    }

    /// The constant at `index`, or `None` when the pool has no such entry.
    pub fn get_constant(&self, index: usize) -> (r: Option<Value>)
        ensures
            r == (if index < self.constants.len() {
                Some(self.constants@[index as int])
            } else {
                None
            }),
    {
        if index < self.constants.len() {
            Some(self.constants[index])
        } else {
            None
        }
    }

    /// The source line recorded for the opcode byte at `offset`, if any.
    pub fn get_line_no(&self, offset: usize) -> (r: Option<usize>)
        ensures
            r == line_at(self.lines@, offset),
    {
        let mut i: usize = 0;
        while i < self.lines.len()
            invariant
                i <= self.lines@.len(),
                line_at(self.lines@, offset) == line_from(self.lines@, i as int, offset),
            decreases self.lines@.len() - i,
        {
            if self.lines[i].0 == offset {
                return Some(self.lines[i].1);
            }
            i = i + 1;
        }
        None
    }
}

} // verus!
