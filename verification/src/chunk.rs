//! The compiled unit: a flat instruction stream, a byte-indexed line table
//! for diagnostics, and a constant pool referenced by single-byte index.
//!
//! A chunk is append-only while it is built and read-only once the machine
//! runs it. Two invariants hold throughout: the line table matches the
//! instruction stream byte for byte, and the constant pool never exceeds
//! 256 entries.

use vstd::prelude::*;

use crate::value::Value;

verus! {

/// The closed opcode set. Each instruction is one opcode byte followed by
/// zero or more operand bytes; only `Constant` carries an operand (the
/// constant-pool index).
#[derive(Clone, Copy, PartialEq, Eq, Structural, Debug)]
pub enum OpCode {
    Constant,
    Add,
    Subtract,
    Multiply,
    Divide,
    Negate,
    Return,
}

/// The byte that encodes an opcode in the instruction stream.
pub open spec fn opcode_value(op: OpCode) -> u8 {
    match op {
        OpCode::Constant => 0,
        OpCode::Add => 1,
        OpCode::Subtract => 2,
        OpCode::Multiply => 3,
        OpCode::Divide => 4,
        OpCode::Negate => 5,
        OpCode::Return => 6,
    }
}

/// The opcode a byte decodes to, or `None` for an unrecognized byte.
pub open spec fn decode_opcode(byte: u8) -> Option<OpCode> {
    if byte == 0 {
        Some(OpCode::Constant)
    } else if byte == 1 {
        Some(OpCode::Add)
    } else if byte == 2 {
        Some(OpCode::Subtract)
    } else if byte == 3 {
        Some(OpCode::Multiply)
    } else if byte == 4 {
        Some(OpCode::Divide)
    } else if byte == 5 {
        Some(OpCode::Negate)
    } else if byte == 6 {
        Some(OpCode::Return)
    } else {
        None
    }
}

/// Encoding then decoding an opcode gives the opcode back: the byte
/// encoding is faithful to the closed opcode set.
pub proof fn lemma_opcode_round_trip(op: OpCode)
    ensures
        decode_opcode(opcode_value(op)) == Some(op),
{
}

impl OpCode {
    /// The encoding of this opcode as an instruction byte.
    pub fn byte(self) -> (b: u8)
        ensures
            b == opcode_value(self),
    {
        match self {
            OpCode::Constant => 0,
            OpCode::Add => 1,
            OpCode::Subtract => 2,
            OpCode::Multiply => 3,
            OpCode::Divide => 4,
            OpCode::Negate => 5,
            OpCode::Return => 6,
        }
    }

    /// Decode one instruction byte; an unrecognized byte is handed back as
    /// the error, for the caller's diagnostic.
    pub fn try_from(byte: u8) -> (r: Result<OpCode, u8>)
        ensures
            r == (match decode_opcode(byte) {
                Some(op) => Result::<OpCode, u8>::Ok(op),
                None => Result::<OpCode, u8>::Err(byte),
            }),
    {
        if byte == 0 {
            Ok(OpCode::Constant)
        } else if byte == 1 {
            Ok(OpCode::Add)
        } else if byte == 2 {
            Ok(OpCode::Subtract)
        } else if byte == 3 {
            Ok(OpCode::Multiply)
        } else if byte == 4 {
            Ok(OpCode::Divide)
        } else if byte == 5 {
            Ok(OpCode::Negate)
        } else if byte == 6 {
            Ok(OpCode::Return)
        } else {
            Err(byte)
        }
    }
}

/// The diagnostic returned when a chunk's constant pool is asked to grow
/// past its hard limit of 256 entries.
#[derive(Clone, Copy, PartialEq, Eq, Structural, Debug)]
pub struct ConstantPoolFull;

impl ConstantPoolFull {
    /// The diagnostic's text.
    pub fn message(&self) -> String {
        String::from_str("too many constants in one chunk")
    }
}

/// A compiled unit: instruction bytes, a parallel per-byte source-line
/// table, and the constant pool.
#[derive(Debug)]
pub struct Chunk {
    pub code: Vec<u8>,
    pub lines: Vec<i32>,
    pub constants: Vec<Value>,
}

impl Chunk {
    /// Well-formedness: the line table mirrors the instruction stream byte
    /// for byte, and the constant pool is within its hard limit.
    pub open spec fn wf(&self) -> bool {
        &&& self.lines@.len() == self.code@.len()
        &&& self.constants@.len() <= 256
    }

    /// A fresh, empty chunk.
    pub fn new() -> (chunk: Chunk)
        ensures
            chunk.code@ == Seq::<u8>::empty(),
            chunk.lines@ == Seq::<i32>::empty(),
            chunk.constants@ == Seq::<Value>::empty(),
            chunk.wf(),
    {
        Chunk { code: Vec::new(), lines: Vec::new(), constants: Vec::new() }
    }

    /// Append one instruction byte together with its source line, in
    /// lockstep; everything already written is preserved.
    pub fn write(&mut self, byte: u8, line: i32)
        ensures
            final(self).code@ == old(self).code@.push(byte),
            final(self).lines@ == old(self).lines@.push(line),
            final(self).constants@ == old(self).constants@,
            old(self).wf() ==> final(self).wf(),
    {
        self.code.push(byte);
        self.lines.push(line);
    }

    /// Append a value to the constant pool and return its index. The pool
    /// holds at most 256 entries: the insertion that would exceed the limit
    /// is rejected with a diagnostic and the chunk is left exactly as it
    /// was — never silently truncated.
    pub fn add_constant(&mut self, value: Value) -> (r: Result<u8, ConstantPoolFull>)
        ensures
            old(self).constants@.len() < 256 ==> {
                &&& r matches Ok(index) && index as int == old(self).constants@.len()
                &&& final(self).constants@ == old(self).constants@.push(value)
            },
            old(self).constants@.len() >= 256 ==> {
                &&& r matches Err(diagnostic) && diagnostic == ConstantPoolFull
                &&& final(self).constants@ == old(self).constants@
            },
            final(self).code@ == old(self).code@,
            final(self).lines@ == old(self).lines@,
            old(self).wf() ==> final(self).wf(),
    {
        let count = self.constants.len();
        if count >= 256 {
            Err(ConstantPoolFull)
        } else {
            self.constants.push(value);
            Ok(count as u8)
        }
    }

    /// Bounds-checked read of one instruction byte.
    pub fn instruction_at(&self, offset: usize) -> (r: Option<u8>)
        ensures
            r == (if offset < self.code@.len() {
                Some(self.code@[offset as int])
            } else {
                None::<u8>
            }),
    {
        if offset < self.code.len() {
            Some(self.code[offset])
        } else {
            None
        }
    }

    /// Bounds-checked read of one pooled constant.
    pub fn constant_at(&self, index: u8) -> (r: Option<Value>)
        ensures
            r == (if (index as int) < self.constants@.len() {
                Some(self.constants@[index as int])
            } else {
                None::<Value>
            }),
    {
        if (index as usize) < self.constants.len() {
            Some(self.constants[index as usize])
        } else {
            None
        }
    }
}

} // verus!
