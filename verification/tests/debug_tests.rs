use bytecode::chunk::{Chunk, OpCode};
use bytecode::debug::{disassemble, disassemble_chunk, render_entry, ReportDetail};
use bytecode::value::{print_value, Value};

fn val(x: f64) -> Value {
    Value { bits: x.to_bits() }
}

#[test]
fn disassembly_emits_one_entry_per_instruction() {
    // CONST 0; CONST 1; ADD; CONST 2; DIVIDE; NEGATE; RETURN
    let mut chunk = Chunk::new();
    let i0 = chunk.add_constant(val(1.2)).unwrap();
    let i1 = chunk.add_constant(val(3.4)).unwrap();
    let i2 = chunk.add_constant(val(5.6)).unwrap();
    chunk.write(OpCode::Constant.byte(), 1);
    chunk.write(i0, 1);
    chunk.write(OpCode::Constant.byte(), 1);
    chunk.write(i1, 1);
    chunk.write(OpCode::Add.byte(), 1);
    chunk.write(OpCode::Constant.byte(), 2);
    chunk.write(i2, 2);
    chunk.write(OpCode::Divide.byte(), 2);
    chunk.write(OpCode::Negate.byte(), 2);
    chunk.write(OpCode::Return.byte(), 3);
    let report = disassemble(&chunk);
    let offsets: Vec<usize> = report.iter().map(|e| e.offset).collect();
    assert_eq!(offsets, vec![0, 2, 4, 5, 7, 8, 9]);
    assert_eq!(report[0].detail, ReportDetail::LoadConstant { index: 0, value: Some(val(1.2)) });
    assert_eq!(report[2].detail, ReportDetail::Simple { op: OpCode::Add });
    assert_eq!(report[6].detail, ReportDetail::Simple { op: OpCode::Return });
}

#[test]
fn disassembly_elides_repeated_lines() {
    let mut chunk = Chunk::new();
    chunk.write(OpCode::Add.byte(), 7);
    chunk.write(OpCode::Subtract.byte(), 7);
    chunk.write(OpCode::Return.byte(), 8);
    let report = disassemble(&chunk);
    assert_eq!(report.len(), 3);
    assert!(!report[0].elided);
    assert!(report[1].elided);
    assert!(!report[2].elided);
    assert_eq!(report[1].line, 7);
}

#[test]
fn disassembly_is_total_over_arbitrary_bytes() {
    // Unknown opcodes and a truncated constant never abort decoding.
    let mut chunk = Chunk::new();
    chunk.write(99, 1); // unknown
    chunk.write(OpCode::Negate.byte(), 1);
    chunk.write(200, 2); // unknown
    chunk.write(OpCode::Constant.byte(), 2); // operand cut off by the end
    let report = disassemble(&chunk);
    assert_eq!(report.len(), 4);
    assert_eq!(report[0].detail, ReportDetail::Unknown { byte: 99 });
    assert_eq!(report[1].detail, ReportDetail::Simple { op: OpCode::Negate });
    assert_eq!(report[2].detail, ReportDetail::Unknown { byte: 200 });
    assert_eq!(report[3].detail, ReportDetail::TruncatedConstant);
    let offsets: Vec<usize> = report.iter().map(|e| e.offset).collect();
    assert_eq!(offsets, vec![0, 1, 2, 3]);
}

#[test]
fn disassembly_flags_unknown_opcode_at_its_offset() {
    let mut chunk = Chunk::new();
    let i0 = chunk.add_constant(val(7.0)).unwrap();
    chunk.write(OpCode::Constant.byte(), 1);
    chunk.write(i0, 1);
    chunk.write(42, 1);
    let report = disassemble(&chunk);
    assert_eq!(report.len(), 2);
    assert_eq!(report[1].offset, 2);
    assert_eq!(report[1].detail, ReportDetail::Unknown { byte: 42 });
}

#[test]
fn constant_entry_with_index_out_of_range_has_no_value() {
    let mut chunk = Chunk::new();
    chunk.write(OpCode::Constant.byte(), 1);
    chunk.write(9, 1);
    let report = disassemble(&chunk);
    assert_eq!(report.len(), 1);
    assert_eq!(report[0].detail, ReportDetail::LoadConstant { index: 9, value: None });
}

#[test]
fn listing_text_has_header_and_one_line_per_entry() {
    let mut chunk = Chunk::new();
    let i0 = chunk.add_constant(val(1.2)).unwrap();
    chunk.write(OpCode::Constant.byte(), 123);
    chunk.write(i0, 123);
    chunk.write(OpCode::Return.byte(), 123);
    let listing = disassemble_chunk(&chunk, "test chunk");
    assert_eq!(listing.len(), 3);
    assert_eq!(listing[0], "== test chunk ==");
    let rendered_value = print_value(&val(1.2));
    assert_eq!(listing[1], format!("0 123 OP_CONSTANT 0 '{}'", rendered_value));
    assert_eq!(listing[2], "2 | OP_RETURN");
}

#[test]
fn rendered_lines_show_offset_line_and_mnemonic() {
    let mut chunk = Chunk::new();
    chunk.write(OpCode::Negate.byte(), -1);
    chunk.write(77, 4);
    let report = disassemble(&chunk);
    assert_eq!(render_entry(&report[0]), "0 -1 OP_NEGATE");
    assert_eq!(render_entry(&report[1]), "1 4 Unknown opcode 77");
}

#[test]
fn value_text_depends_on_the_value() {
    let one = print_value(&val(1.0));
    let two = print_value(&val(2.0));
    assert!(!one.is_empty());
    assert_ne!(one, two);
    let neg = print_value(&val(-1.0));
    assert!(neg.starts_with('-'));
}
