//! The virtual machine: a fetch-decode-execute loop over one chunk.
//!
//! The instruction pointer is a byte offset into the chunk's instruction
//! stream, never a free-standing address. The opcode set has no jumps, so
//! the pointer only moves forward and every run terminates in time linear
//! in the length of the instruction stream.
//!
//! The meaning of a run is pinned down by the spec-level semantics
//! [`spec_step`] and [`spec_run`]; the executable engine is proved equal to
//! them. Every fault is detected inline and becomes a terminal value — the
//! engine itself never panics, whatever bytes the chunk holds. A stack
//! underflow is a hard fault here (the machine checks before it pops); an
//! instruction stream that ends without `Return`, or ends in the middle of
//! an instruction, is likewise a fault rather than an out-of-bounds read.

use vstd::prelude::*;

use crate::chunk::{decode_opcode, opcode_value, Chunk, OpCode};
use crate::value::{add_bits, div_bits, mul_bits, neg_bits, sub_bits, Value};

verus! {

/// Terminal status of one interpreter run, as the embedding harness sees
/// it. The core never produces `CompileError`; the variant stands for the
/// front end that hands chunks in.
#[derive(Clone, Copy, PartialEq, Eq, Structural, Debug)]
pub enum InterpretResult {
    Success,
    CompileError,
    RuntimeError,
}

/// A fault, fatal to the current run and never retryable. Each carries the
/// byte offset at which it was detected.
#[derive(Clone, Copy, PartialEq, Eq, Structural, Debug)]
pub enum Fault {
    /// An unrecognized opcode byte, reported with the raw byte.
    DecodeFault { offset: usize, byte: u8 },
    /// A constant-pool index out of range.
    OperandFault { offset: usize, index: u8 },
    /// A pop was attempted with fewer values on the operand stack than the
    /// operation needs, reported with the attempted operation.
    StackUnderflow { offset: usize, op: OpCode },
    /// The instruction stream ended without `Return`, or in the middle of
    /// an instruction.
    TruncatedCode { offset: usize },
}

/// What one instruction does to the machine, at the spec level: step to a
/// new offset and stack, halt with an optional result, or fault.
pub enum StepSpec {
    Next { ip: int, stack: Seq<Value> },
    Halted { result: Option<Value> },
    Faulted { fault: Fault },
}

/// The value a binary opcode computes from `a` (pushed first) and `b`
/// (pushed second, popped first).
pub open spec fn binary_result(op: OpCode, a: Value, b: Value) -> Value {
    match op {
        OpCode::Add => Value { bits: add_bits(a.bits, b.bits) },
        OpCode::Subtract => Value { bits: sub_bits(a.bits, b.bits) },
        OpCode::Multiply => Value { bits: mul_bits(a.bits, b.bits) },
        OpCode::Divide => Value { bits: div_bits(a.bits, b.bits) },
        _ => a,
    }
}

/// One fetch-decode-execute step over the given instruction stream and
/// constant pool, from offset `ip` with the given operand stack.
pub open spec fn spec_step(code: Seq<u8>, constants: Seq<Value>, ip: int, stack: Seq<Value>) -> StepSpec {
    if !(0 <= ip < code.len()) {
        StepSpec::Faulted { fault: Fault::TruncatedCode { offset: ip as usize } }
    } else {
        match decode_opcode(code[ip]) {
            None => StepSpec::Faulted {
                fault: Fault::DecodeFault { offset: ip as usize, byte: code[ip] },
            },
            Some(op) => match op {
                OpCode::Constant => {
                    if !(ip + 1 < code.len()) {
                        StepSpec::Faulted { fault: Fault::TruncatedCode { offset: ip as usize } }
                    } else if constants.len() <= code[ip + 1] as int {
                        StepSpec::Faulted {
                            fault: Fault::OperandFault { offset: ip as usize, index: code[ip + 1] },
                        }
                    } else {
                        StepSpec::Next { ip: ip + 2, stack: stack.push(constants[code[ip + 1] as int]) }
                    }
                },
                OpCode::Negate => {
                    if stack.len() < 1 {
                        StepSpec::Faulted { fault: Fault::StackUnderflow { offset: ip as usize, op } }
                    } else {
                        StepSpec::Next {
                            ip: ip + 1,
                            stack: stack.drop_last().push(Value { bits: neg_bits(stack.last().bits) }),
                        }
                    }
                },
                OpCode::Return => {
                    StepSpec::Halted {
                        result: if stack.len() > 0 {
                            Some(stack.last())
                        } else {
                            None
                        },
                    }
                },
                _ => {
                    if stack.len() < 2 {
                        StepSpec::Faulted { fault: Fault::StackUnderflow { offset: ip as usize, op } }
                    } else {
                        StepSpec::Next {
                            ip: ip + 1,
                            stack: stack.drop_last().drop_last().push(
                                binary_result(op, stack.drop_last().last(), stack.last()),
                            ),
                        }
                    }
                },
            },
        }
    }
}

/// The terminal outcome of running from offset `ip` with the given operand
/// stack: the value surfaced by `Return` (if any), or the first fault.
/// Total: the stream has no jumps, so the offset only moves forward.
pub open spec fn spec_run(code: Seq<u8>, constants: Seq<Value>, ip: int, stack: Seq<Value>) -> Result<
    Option<Value>,
    Fault,
>
    decreases code.len() - ip,
{
    match spec_step(code, constants, ip, stack) {
        StepSpec::Next { ip: next_ip, stack: next_stack } => spec_run(code, constants, next_ip, next_stack),
        StepSpec::Halted { result } => Ok(result),
        StepSpec::Faulted { fault } => Err(fault),
    }
}

/// The outcome of one exec step: carry on, halt with `Return`'s result, or
/// fault.
#[derive(Clone, Copy, PartialEq, Eq, Debug)]
pub enum StepOutcome {
    Continue,
    Halt { result: Option<Value> },
    Faulted { fault: Fault },
}

/// The machine: the chunk it runs, the instruction pointer (a byte offset
/// into `chunk.code`), and the operand stack.
#[derive(Debug)]
pub struct VM {
    pub chunk: Chunk,
    pub ip: usize,
    pub stack: Vec<Value>,
}

impl VM {
    /// The terminal outcome the machine is headed for from its current
    /// state.
    pub open spec fn pending_outcome(&self) -> Result<Option<Value>, Fault> {
        spec_run(self.chunk.code@, self.chunk.constants@, self.ip as int, self.stack@)
    }

    /// Reset to the ready state: instruction pointer at the start, operand
    /// stack empty.
    pub fn init(&mut self)
        ensures
            final(self).chunk == old(self).chunk,
            final(self).ip == 0,
            final(self).stack@ == Seq::<Value>::empty(),
    {
        self.ip = 0;
        self.stack = Vec::new();
    }

    /// Execute exactly one instruction. On `Continue` the machine advances
    /// as `spec_step` says; on `Halt` or a fault the state is left exactly
    /// as it was and the outcome carries the result or the fault.
    pub fn step(&mut self) -> (outcome: StepOutcome)
        ensures
            final(self).chunk == old(self).chunk,
            ({
                let s = spec_step(
                    old(self).chunk.code@,
                    old(self).chunk.constants@,
                    old(self).ip as int,
                    old(self).stack@,
                );
                match outcome {
                    StepOutcome::Continue => {
                        &&& s matches StepSpec::Next { ip: next_ip, stack: next_stack }
                        &&& final(self).ip as int == next_ip
                        &&& final(self).stack@ == next_stack
                    },
                    StepOutcome::Halt { result } => {
                        &&& s == (StepSpec::Halted { result })
                        &&& *final(self) == *old(self)
                    },
                    StepOutcome::Faulted { fault } => {
                        &&& s == (StepSpec::Faulted { fault })
                        &&& *final(self) == *old(self)
                    },
                }
            }),
    {
        let code_len = self.chunk.code.len();
        if self.ip >= code_len {
            return StepOutcome::Faulted { fault: Fault::TruncatedCode { offset: self.ip } };
        }
        let byte = self.chunk.code[self.ip];
        let op = match OpCode::try_from(byte) {
            Ok(op) => op,
            Err(raw) => {
                return StepOutcome::Faulted {
                    fault: Fault::DecodeFault { offset: self.ip, byte: raw },
                };
            },
        };
        match op {
            OpCode::Constant => {
                if self.ip + 1 >= code_len {
                    return StepOutcome::Faulted { fault: Fault::TruncatedCode { offset: self.ip } };
                }
                let index = self.chunk.code[self.ip + 1];
                if (index as usize) >= self.chunk.constants.len() {
                    return StepOutcome::Faulted {
                        fault: Fault::OperandFault { offset: self.ip, index },
                    };
                }
                let value = self.chunk.constants[index as usize];
                self.stack.push(value);
                self.ip = self.ip + 2;
                StepOutcome::Continue
            },
            OpCode::Negate => {
                if self.stack.len() < 1 {
                    return StepOutcome::Faulted {
                        fault: Fault::StackUnderflow { offset: self.ip, op },
                    };
                }
                let a = self.stack.pop().unwrap();
                self.stack.push(a.neg());
                proof {
                    assert(self.stack@ =~= old(self).stack@.drop_last().push(
                        Value { bits: neg_bits(old(self).stack@.last().bits) },
                    ));
                }
                self.ip = self.ip + 1;
                StepOutcome::Continue
            },
            OpCode::Return => {
                let result = if self.stack.len() > 0 {
                    Some(self.stack[self.stack.len() - 1])
                } else {
                    None
                };
                StepOutcome::Halt { result }
            },
            _ => {
                if self.stack.len() < 2 {
                    return StepOutcome::Faulted {
                        fault: Fault::StackUnderflow { offset: self.ip, op },
                    };
                }
                let b = self.stack.pop().unwrap();
                let a = self.stack.pop().unwrap();
                let computed = match op {
                    OpCode::Add => a.add(b),
                    OpCode::Subtract => a.sub(b),
                    OpCode::Multiply => a.mul(b),
                    _ => a.div(b),
                };
                self.stack.push(computed);
                proof {
                    assert(self.stack@ =~= old(self).stack@.drop_last().drop_last().push(
                        binary_result(
                            op,
                            old(self).stack@.drop_last().last(),
                            old(self).stack@.last(),
                        ),
                    ));
                }
                self.ip = self.ip + 1;
                StepOutcome::Continue
            },
        }
    }

    /// Run the fetch-decode-execute loop to its terminal outcome: the value
    /// surfaced by `Return` (if any), or the first fault. The chunk is never
    /// mutated, and the machine halts in a state still headed for the same
    /// outcome.
    pub fn run(&mut self) -> (outcome: Result<Option<Value>, Fault>)
        ensures
            final(self).chunk == old(self).chunk,
            outcome == old(self).pending_outcome(),
            final(self).pending_outcome() == outcome,
    {
        loop
            invariant
                self.chunk == old(self).chunk,
                self.pending_outcome() == old(self).pending_outcome(),
            decreases self.chunk.code@.len() - self.ip,
        {
            match self.step() {
                StepOutcome::Continue => {},
                StepOutcome::Halt { result } => {
                    return Ok(result);
                },
                StepOutcome::Faulted { fault } => {
                    return Err(fault);
                },
            }
        }
    }

    /// Consume one chunk: install it, reset to the ready state, run to the
    /// terminal status. A run that halts through `Return` is `Ok`; any
    /// fault is `RuntimeError`; `CompileError` is never produced here.
    pub fn interpret(&mut self, chunk: Chunk) -> (status: InterpretResult)
        ensures
            final(self).chunk == chunk,
            status == (match spec_run(chunk.code@, chunk.constants@, 0, Seq::<Value>::empty()) {
                Ok(_) => InterpretResult::Success,
                Err(_) => InterpretResult::RuntimeError,
            }),
    {
        self.chunk = chunk;
        self.init();
        match self.run() {
            Ok(_) => InterpretResult::Success,
            Err(_) => InterpretResult::RuntimeError,
        }
    }
}

/// Round trip: a value placed in the constant pool at `index` and loaded by
/// a `Constant` instruction is surfaced by `Return` bit-identical — the
/// encoding loses nothing.
pub proof fn lemma_constant_round_trip(constants: Seq<Value>, index: u8, v: Value)
    requires
        (index as int) < constants.len(),
        constants[index as int] == v,
    ensures
        ({
            let code = seq![opcode_value(OpCode::Constant), index, opcode_value(OpCode::Return)];
            spec_run(code, constants, 0, Seq::<Value>::empty()) == Ok::<Option<Value>, Fault>(Some(v))
        }),
{
    let code = seq![opcode_value(OpCode::Constant), index, opcode_value(OpCode::Return)];
    let stack0 = Seq::<Value>::empty();
    let stack1 = stack0.push(v);
    crate::chunk::lemma_opcode_round_trip(OpCode::Constant);
    crate::chunk::lemma_opcode_round_trip(OpCode::Return);
    assert(spec_step(code, constants, 0, stack0) == (StepSpec::Next { ip: 2, stack: stack1 }));
    assert(spec_run(code, constants, 0, stack0) == spec_run(code, constants, 2, stack1));
    assert(spec_step(code, constants, 2, stack1) == (StepSpec::Halted { result: Some(v) }));
    assert(spec_run(code, constants, 2, stack1) == Ok::<Option<Value>, Fault>(Some(v)));
}

/// Operand order: with `a` below `b` on the stack (`b` on top), `Subtract`
/// computes `a - b`, not `b - a`.
pub proof fn lemma_subtract_operand_order(a: Value, b: Value, constants: Seq<Value>)
    ensures
        ({
            let code = seq![opcode_value(OpCode::Subtract), opcode_value(OpCode::Return)];
            spec_run(code, constants, 0, seq![a, b]) == Ok::<Option<Value>, Fault>(
                Some(Value { bits: sub_bits(a.bits, b.bits) }),
            )
        }),
{
    let code = seq![opcode_value(OpCode::Subtract), opcode_value(OpCode::Return)];
    let stack0 = seq![a, b];
    let difference = Value { bits: sub_bits(a.bits, b.bits) };
    let stack1 = stack0.drop_last().drop_last().push(difference);
    assert(stack0.drop_last() =~= seq![a]);
    assert(stack0.last() == b && stack0.drop_last().last() == a);
    assert(spec_step(code, constants, 0, stack0) == (StepSpec::Next { ip: 1, stack: stack1 }));
    assert(spec_run(code, constants, 0, stack0) == spec_run(code, constants, 1, stack1));
    assert(stack1.last() == difference);
    assert(spec_step(code, constants, 1, stack1) == (StepSpec::Halted { result: Some(difference) }));
    assert(spec_run(code, constants, 1, stack1) == Ok::<Option<Value>, Fault>(Some(difference)));
}

/// An unrecognized opcode byte reached at offset `ip` ends the run at once
/// with a decode fault reporting that offset and the raw byte.
pub proof fn lemma_unknown_opcode_faults(code: Seq<u8>, constants: Seq<Value>, ip: int, stack: Seq<Value>)
    requires
        0 <= ip < code.len(),
        decode_opcode(code[ip]) is None,
    ensures
        spec_run(code, constants, ip, stack) == Err::<Option<Value>, Fault>(
            Fault::DecodeFault { offset: ip as usize, byte: code[ip] },
        ),
{
}

} // verus!
