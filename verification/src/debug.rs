//! The disassembler: a pure, read-only decoder over a chunk, producing one
//! diagnostic report entry per instruction (an entry spans two bytes when
//! the instruction carries an operand). It is total over any byte sequence:
//! an unrecognized opcode byte is flagged and decoding resynchronizes one
//! byte later, and an operand cut off by the end of the stream is flagged
//! the same way — disassembly never aborts.
//!
//! Each entry carries the byte offset and the source line; the line is
//! marked elided when it equals the previous instruction's line, a display
//! compression only, with no bearing on execution.

use vstd::prelude::*;

use crate::chunk::{decode_opcode, Chunk, OpCode};
use crate::value::{print_value, value_text, Value};

verus! {

/// What one report entry says about its instruction.
#[derive(Clone, Copy, PartialEq, Eq, Structural, Debug)]
pub enum ReportDetail {
    /// A one-byte instruction, shown by its mnemonic.
    Simple { op: OpCode },
    /// A `Constant` instruction with its pool index and, when the index is
    /// in range, the resolved value.
    LoadConstant { index: u8, value: Option<Value> },
    /// A `Constant` opcode on the last byte of the stream: its operand is
    /// cut off.
    TruncatedConstant,
    /// An unrecognized opcode byte; decoding resumes one byte later.
    Unknown { byte: u8 },
}

/// One report line of the diagnostic listing.
#[derive(Clone, Copy, PartialEq, Eq, Structural, Debug)]
pub struct ReportEntry {
    /// Byte offset of the instruction in the stream.
    pub offset: usize,
    /// The instruction's source line, from the line table.
    pub line: i32,
    /// Whether the line equals the previous instruction's line and is shown
    /// as a placeholder.
    pub elided: bool,
    pub detail: ReportDetail,
}

/// How many instruction bytes the entry accounts for.
pub open spec fn entry_span(entry: ReportEntry) -> int {
    match entry.detail {
        ReportDetail::LoadConstant { .. } => 2,
        _ => 1,
    }
}

/// The report entry for the instruction at offset `ip`, given the previous
/// instruction's line (`None` at the start of the stream).
pub open spec fn spec_entry(
    code: Seq<u8>,
    lines: Seq<i32>,
    constants: Seq<Value>,
    ip: int,
    prev_line: Option<i32>,
) -> ReportEntry
    recommends
        0 <= ip < code.len(),
        lines.len() == code.len(),
{
    let detail = match decode_opcode(code[ip]) {
        None => ReportDetail::Unknown { byte: code[ip] },
        Some(op) => match op {
            OpCode::Constant => {
                if ip + 1 < code.len() {
                    ReportDetail::LoadConstant {
                        index: code[ip + 1],
                        value: if (code[ip + 1] as int) < constants.len() {
                            Some(constants[code[ip + 1] as int])
                        } else {
                            None
                        },
                    }
                } else {
                    ReportDetail::TruncatedConstant
                }
            },
            _ => ReportDetail::Simple { op },
        },
    };
    ReportEntry {
        offset: ip as usize,
        line: lines[ip],
        elided: prev_line == Some(lines[ip]),
        detail,
    }
}

/// The whole listing from offset `ip` to the end of the stream, one entry
/// per consumed byte span.
pub open spec fn spec_disassemble(
    code: Seq<u8>,
    lines: Seq<i32>,
    constants: Seq<Value>,
    ip: int,
    prev_line: Option<i32>,
) -> Seq<ReportEntry>
    decreases code.len() - ip,
{
    if !(0 <= ip < code.len()) {
        Seq::<ReportEntry>::empty()
    } else {
        let entry = spec_entry(code, lines, constants, ip, prev_line);
        seq![entry] + spec_disassemble(code, lines, constants, ip + entry_span(entry), Some(lines[ip]))
    }
}

/// Decode the single instruction at `offset`, handing back its report entry
/// and the offset of the next instruction.
pub fn disassemble_instruction(chunk: &Chunk, offset: usize, prev_line: Option<i32>) -> (r: (
    ReportEntry,
    usize,
))
    requires
        chunk.lines@.len() == chunk.code@.len(),
        offset < chunk.code@.len(),
    ensures
        r.0 == spec_entry(chunk.code@, chunk.lines@, chunk.constants@, offset as int, prev_line),
        r.1 == offset + entry_span(r.0),
        offset < r.1 <= chunk.code@.len(),
{
    let code_len = chunk.code.len();
    let line = chunk.lines[offset];
    let elided = match prev_line {
        Some(prev) => prev == line,
        None => false,
    };
    let byte = chunk.code[offset];
    let (detail, next) = match OpCode::try_from(byte) {
        Err(raw) => (ReportDetail::Unknown { byte: raw }, offset + 1),
        Ok(OpCode::Constant) => {
            if offset + 1 < code_len {
                let index = chunk.code[offset + 1];
                let value = chunk.constant_at(index);
                (ReportDetail::LoadConstant { index, value }, offset + 2)
            } else {
                (ReportDetail::TruncatedConstant, offset + 1)
            }
        },
        Ok(op) => (ReportDetail::Simple { op }, offset + 1),
    };
    (ReportEntry { offset, line, elided, detail }, next)
}

/// Decode the whole chunk into its diagnostic listing. Total over any byte
/// sequence, and terminates after one entry per consumed byte span.
pub fn disassemble(chunk: &Chunk) -> (report: Vec<ReportEntry>)
    requires
        chunk.lines@.len() == chunk.code@.len(),
    ensures
        report@ == spec_disassemble(chunk.code@, chunk.lines@, chunk.constants@, 0, None::<i32>),
{
    let ghost full = spec_disassemble(chunk.code@, chunk.lines@, chunk.constants@, 0, None::<i32>);
    let mut report: Vec<ReportEntry> = Vec::new();
    let mut offset: usize = 0;
    let mut prev_line: Option<i32> = None;
    while offset < chunk.code.len()
        invariant
            chunk.lines@.len() == chunk.code@.len(),
            offset <= chunk.code@.len(),
            full == report@ + spec_disassemble(
                chunk.code@,
                chunk.lines@,
                chunk.constants@,
                offset as int,
                prev_line,
            ),
        decreases chunk.code@.len() - offset,
    {
        let ghost rest = spec_disassemble(
            chunk.code@,
            chunk.lines@,
            chunk.constants@,
            offset as int,
            prev_line,
        );
        let (entry, next) = disassemble_instruction(chunk, offset, prev_line);
        proof {
            assert(report@ + rest =~= (report@ + seq![entry]) + spec_disassemble(
                chunk.code@,
                chunk.lines@,
                chunk.constants@,
                next as int,
                Some(chunk.lines@[offset as int]),
            ));
            assert(report@ + seq![entry] =~= report@.push(entry));
        }
        prev_line = Some(chunk.lines[offset]);
        report.push(entry);
        offset = next;
    }
    proof {
        assert(full =~= report@);
    }
    report
}

/// The character for one decimal digit.
pub open spec fn digit_char(d: nat) -> char {
    if d == 0 {
        '0'
    } else if d == 1 {
        '1'
    } else if d == 2 {
        '2'
    } else if d == 3 {
        '3'
    } else if d == 4 {
        '4'
    } else if d == 5 {
        '5'
    } else if d == 6 {
        '6'
    } else if d == 7 {
        '7'
    } else if d == 8 {
        '8'
    } else {
        '9'
    }
}

/// The decimal digits of `n`, most significant first.
pub open spec fn dec_rep(n: nat) -> Seq<char>
    decreases n,
{
    if n < 10 {
        seq![digit_char(n)]
    } else {
        dec_rep(n / 10) + seq![digit_char(n % 10)]
    }
}

/// The decimal text of a source line, sign included.
pub open spec fn line_text(line: i32) -> Seq<char> {
    if line >= 0 {
        dec_rep(line as nat)
    } else {
        "-"@ + dec_rep((-(line as int)) as nat)
    }
}

/// The mnemonic of an opcode in the listing.
pub open spec fn mnemonic(op: OpCode) -> Seq<char> {
    match op {
        OpCode::Constant => "OP_CONSTANT"@,
        OpCode::Add => "OP_ADD"@,
        OpCode::Subtract => "OP_SUBTRACT"@,
        OpCode::Multiply => "OP_MULTIPLY"@,
        OpCode::Divide => "OP_DIVIDE"@,
        OpCode::Negate => "OP_NEGATE"@,
        OpCode::Return => "OP_RETURN"@,
    }
}

/// The leading fields of a report line: byte offset, then the source line
/// or the placeholder for an elided one.
pub open spec fn entry_head_text(entry: ReportEntry) -> Seq<char> {
    dec_rep(entry.offset as nat) + " "@ + (if entry.elided {
        "|"@
    } else {
        line_text(entry.line)
    }) + " "@
}

/// The full text of one report line.
pub open spec fn entry_text(entry: ReportEntry) -> Seq<char> {
    match entry.detail {
        ReportDetail::Simple { op } => entry_head_text(entry) + mnemonic(op),
        ReportDetail::LoadConstant { index, value } => entry_head_text(entry) + "OP_CONSTANT "@
            + dec_rep(index as nat) + " '"@ + (match value {
            Some(v) => value_text(v.bits),
            None => "<out of range>"@,
        }) + "'"@,
        ReportDetail::TruncatedConstant => entry_head_text(entry) + "OP_CONSTANT <truncated>"@,
        ReportDetail::Unknown { byte } => entry_head_text(entry) + "Unknown opcode "@ + dec_rep(
            byte as nat,
        ),
    }
}

/// The one-character string for a decimal digit.
fn digit_string(d: u64) -> (s: String)
    requires
        d < 10,
    ensures
        s@ == seq![digit_char(d as nat)],
{
    if d == 0 {
        let s = String::from_str("0");
        proof {
            reveal_strlit("0");
            assert(s@ =~= seq![digit_char(d as nat)]);
        }
        s
    } else if d == 1 {
        let s = String::from_str("1");
        proof {
            reveal_strlit("1");
            assert(s@ =~= seq![digit_char(d as nat)]);
        }
        s
    } else if d == 2 {
        let s = String::from_str("2");
        proof {
            reveal_strlit("2");
            assert(s@ =~= seq![digit_char(d as nat)]);
        }
        s
    } else if d == 3 {
        let s = String::from_str("3");
        proof {
            reveal_strlit("3");
            assert(s@ =~= seq![digit_char(d as nat)]);
        }
        s
    } else if d == 4 {
        let s = String::from_str("4");
        proof {
            reveal_strlit("4");
            assert(s@ =~= seq![digit_char(d as nat)]);
        }
        s
    } else if d == 5 {
        let s = String::from_str("5");
        proof {
            reveal_strlit("5");
            assert(s@ =~= seq![digit_char(d as nat)]);
        }
        s
    } else if d == 6 {
        let s = String::from_str("6");
        proof {
            reveal_strlit("6");
            assert(s@ =~= seq![digit_char(d as nat)]);
        }
        s
    } else if d == 7 {
        let s = String::from_str("7");
        proof {
            reveal_strlit("7");
            assert(s@ =~= seq![digit_char(d as nat)]);
        }
        s
    } else if d == 8 {
        let s = String::from_str("8");
        proof {
            reveal_strlit("8");
            assert(s@ =~= seq![digit_char(d as nat)]);
        }
        s
    } else {
        let s = String::from_str("9");
        proof {
            reveal_strlit("9");
            assert(s@ =~= seq![digit_char(d as nat)]);
        }
        s
    }
}

/// The decimal text of `n`.
fn dec_string(n: u64) -> (s: String)
    ensures
        s@ == dec_rep(n as nat),
    decreases n,
{
    if n < 10 {
        digit_string(n)
    } else {
        let mut s = dec_string(n / 10);
        let digit = digit_string(n % 10);
        s.append(digit.as_str());
        s
    }
}

/// The decimal text of a source line, sign included.
fn line_string(line: i32) -> (s: String)
    ensures
        s@ == line_text(line),
{
    if line >= 0 {
        dec_string(line as u64)
    } else {
        let magnitude: u64 = (-(line as i64)) as u64;
        let mut s = String::from_str("-");
        let digits = dec_string(magnitude);
        s.append(digits.as_str());
        s
    }
}

/// The mnemonic of an opcode, as text.
fn mnemonic_string(op: OpCode) -> (s: String)
    ensures
        s@ == mnemonic(op),
{
    match op {
        OpCode::Constant => String::from_str("OP_CONSTANT"),
        OpCode::Add => String::from_str("OP_ADD"),
        OpCode::Subtract => String::from_str("OP_SUBTRACT"),
        OpCode::Multiply => String::from_str("OP_MULTIPLY"),
        OpCode::Divide => String::from_str("OP_DIVIDE"),
        OpCode::Negate => String::from_str("OP_NEGATE"),
        OpCode::Return => String::from_str("OP_RETURN"),
    }
}

/// Render one report entry as a line of the diagnostic listing: byte
/// offset, source line (or the placeholder when elided), mnemonic, and for
/// a constant load the pool index and the resolved value.
pub fn render_entry(entry: &ReportEntry) -> (text: String)
    ensures
        text@ == entry_text(*entry),
{
    let mut text = dec_string(entry.offset as u64);
    text.append(" ");
    if entry.elided {
        text.append("|");
    } else {
        let line = line_string(entry.line);
        text.append(line.as_str());
    }
    text.append(" ");
    match entry.detail {
        ReportDetail::Simple { op } => {
            let m = mnemonic_string(op);
            text.append(m.as_str());
        },
        ReportDetail::LoadConstant { index, value } => {
            text.append("OP_CONSTANT ");
            let digits = dec_string(index as u64);
            text.append(digits.as_str());
            text.append(" '");
            match value {
                Some(v) => {
                    let rendered = print_value(&v);
                    text.append(rendered.as_str());
                },
                None => {
                    text.append("<out of range>");
                },
            }
            text.append("'");
        },
        ReportDetail::TruncatedConstant => {
            text.append("OP_CONSTANT <truncated>");
        },
        ReportDetail::Unknown { byte } => {
            text.append("Unknown opcode ");
            let digits = dec_string(byte as u64);
            text.append(digits.as_str());
        },
    }
    text
}

/// The whole diagnostic listing as text: a header naming the chunk, then
/// one line per report entry.
pub fn disassemble_chunk(chunk: &Chunk, name: &str) -> (listing: Vec<String>)
    requires
        chunk.lines@.len() == chunk.code@.len(),
    ensures
        ({
            let report = spec_disassemble(chunk.code@, chunk.lines@, chunk.constants@, 0, None::<i32>);
            &&& listing@.len() == 1 + report.len()
            &&& listing@[0]@ == "== "@ + name@ + " =="@
            &&& forall|i: int|
                1 <= i < listing@.len() ==> (#[trigger] listing@[i])@ == entry_text(report[i - 1])
        }),
{
    let report = disassemble(chunk);
    let mut listing: Vec<String> = Vec::new();
    let mut header = String::from_str("== ");
    header.append(name);
    header.append(" ==");
    listing.push(header);
    let mut i: usize = 0;
    while i < report.len()
        invariant
            report@ == spec_disassemble(chunk.code@, chunk.lines@, chunk.constants@, 0, None::<i32>),
            i <= report@.len(),
            listing@.len() == 1 + i,
            listing@[0]@ == "== "@ + name@ + " =="@,
            forall|j: int|
                1 <= j < listing@.len() ==> (#[trigger] listing@[j])@ == entry_text(report@[j - 1]),
        decreases report@.len() - i,
    {
        let line = render_entry(&report[i]);
        listing.push(line);
        i = i + 1;
    }
    listing
}

/// Disassembly is total and exhaustive: from any starting offset, the
/// report holds exactly one entry per consumed byte span — the first entry
/// sits at the starting offset, each entry begins where the one before it
/// ended, and the last entry ends exactly at the end of the stream.
pub proof fn lemma_disassembly_total(
    code: Seq<u8>,
    lines: Seq<i32>,
    constants: Seq<Value>,
    ip: int,
    prev_line: Option<i32>,
)
    requires
        0 <= ip <= code.len(),
        code.len() <= usize::MAX,
    ensures
        ({
            let report = spec_disassemble(code, lines, constants, ip, prev_line);
            &&& (report.len() == 0 <==> ip == code.len())
            &&& report.len() > 0 ==> report[0].offset == ip
            &&& forall|i: int| 0 <= i < report.len() ==> ip <= #[trigger] report[i].offset < code.len()
            &&& forall|i: int|
                0 <= i < report.len() - 1 ==> #[trigger] report[i + 1].offset == report[i].offset
                    + entry_span(report[i])
            &&& report.len() > 0 ==> report[report.len() - 1].offset + entry_span(
                report[report.len() - 1],
            ) == code.len()
        }),
    decreases code.len() - ip,
{
    if ip < code.len() {
        let entry = spec_entry(code, lines, constants, ip, prev_line);
        let next = ip + entry_span(entry);
        lemma_disassembly_total(code, lines, constants, next, Some(lines[ip]));
        let rest = spec_disassemble(code, lines, constants, next, Some(lines[ip]));
        let report = spec_disassemble(code, lines, constants, ip, prev_line);
        assert(report == seq![entry] + rest);
        assert(forall|i: int| 0 <= i < rest.len() ==> report[i + 1] == #[trigger] rest[i]);
    }
}

/// Every entry of the listing flags exactly the unrecognized opcode bytes:
/// an entry is `Unknown` if and only if the byte at its offset decodes to
/// no opcode, and then it carries that raw byte.
pub proof fn lemma_disassembly_flags_unknown(
    code: Seq<u8>,
    lines: Seq<i32>,
    constants: Seq<Value>,
    ip: int,
    prev_line: Option<i32>,
)
    requires
        0 <= ip <= code.len(),
        code.len() <= usize::MAX,
    ensures
        ({
            let report = spec_disassemble(code, lines, constants, ip, prev_line);
            forall|i: int|
                0 <= i < report.len() ==> ((#[trigger] report[i].detail matches ReportDetail::Unknown {
                    byte,
                } ==> decode_opcode(code[report[i].offset as int]) is None && byte == code[report[i].offset as int])
                    && (decode_opcode(code[report[i].offset as int]) is None
                    ==> report[i].detail matches ReportDetail::Unknown { .. }))
        }),
    decreases code.len() - ip,
{
    if ip < code.len() {
        let entry = spec_entry(code, lines, constants, ip, prev_line);
        let next = ip + entry_span(entry);
        lemma_disassembly_flags_unknown(code, lines, constants, next, Some(lines[ip]));
        let rest = spec_disassemble(code, lines, constants, next, Some(lines[ip]));
        let report = spec_disassemble(code, lines, constants, ip, prev_line);
        assert(report == seq![entry] + rest);
        assert(forall|i: int| 0 <= i < rest.len() ==> report[i + 1] == #[trigger] rest[i]);
    }
}

} // verus!
