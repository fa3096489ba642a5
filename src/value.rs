use vstd::prelude::*;

verus! {

/// A runtime value: what the constant pool holds and what the operand stack
/// carries. Values are plain data and are copied freely.
#[derive(Debug, Clone, Copy, PartialEq, Eq, Structural)]
pub enum Value {
    /// A 64-bit signed integer scalar.
    Number(i64),
    Bool(bool),
    /// The single value that carries no information.
    Unit,
}

} // verus!
