use bytecode::chunk::{Chunk, OpCode};
use bytecode::value::Value;

fn val(x: f64) -> Value {
    Value { bits: x.to_bits() }
}

#[test]
fn new_chunk_is_empty() {
    let chunk = Chunk::new();
    assert!(chunk.code.is_empty());
    assert!(chunk.lines.is_empty());
    assert!(chunk.constants.is_empty());
}

#[test]
fn write_keeps_code_and_lines_in_lockstep() {
    let mut chunk = Chunk::new();
    chunk.write(OpCode::Return.byte(), 123);
    chunk.write(OpCode::Add.byte(), 124);
    assert_eq!(chunk.code, vec![6, 1]);
    assert_eq!(chunk.lines, vec![123, 124]);
    assert_eq!(chunk.code.len(), chunk.lines.len());
}

#[test]
fn add_constant_returns_successive_indexes() {
    let mut chunk = Chunk::new();
    assert_eq!(chunk.add_constant(val(1.0)), Ok(0));
    assert_eq!(chunk.add_constant(val(2.0)), Ok(1));
    assert_eq!(chunk.constants.len(), 2);
    assert_eq!(chunk.constants[1], val(2.0));
}

#[test]
fn constant_pool_rejects_insertion_past_limit() {
    let mut chunk = Chunk::new();
    for i in 0..256 {
        let index = chunk.add_constant(val(i as f64)).unwrap();
        assert_eq!(index as usize, i);
    }
    // Insertion attempt #257 is rejected with a diagnostic, and the pool
    // is left untouched rather than silently truncated.
    let rejected = chunk.add_constant(val(999.0));
    assert!(rejected.is_err());
    assert_eq!(
        rejected.unwrap_err().message(),
        "too many constants in one chunk"
    );
    assert_eq!(chunk.constants.len(), 256);
    assert_eq!(chunk.constants[255], val(255.0));
}

#[test]
fn opcode_bytes_round_trip_through_decode() {
    let all = [
        OpCode::Constant,
        OpCode::Add,
        OpCode::Subtract,
        OpCode::Multiply,
        OpCode::Divide,
        OpCode::Negate,
        OpCode::Return,
    ];
    for op in all {
        assert_eq!(OpCode::try_from(op.byte()), Ok(op));
    }
    assert_eq!(OpCode::try_from(7), Err(7));
    assert_eq!(OpCode::try_from(255), Err(255));
}

#[test]
fn instruction_at_is_bounds_checked() {
    let mut chunk = Chunk::new();
    chunk.write(OpCode::Return.byte(), 1);
    assert_eq!(chunk.instruction_at(0), Some(6));
    assert_eq!(chunk.instruction_at(1), None);
}

#[test]
fn constant_at_is_bounds_checked() {
    let mut chunk = Chunk::new();
    chunk.add_constant(val(1.5)).unwrap();
    assert_eq!(chunk.constant_at(0), Some(val(1.5)));
    assert_eq!(chunk.constant_at(1), None);
}
