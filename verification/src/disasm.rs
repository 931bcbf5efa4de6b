//! The disassembler: renders a raw byte stream as mnemonic text, one line
//! per instruction.
//!
//! A single-byte operand renders as two lowercase hexadecimal digits; a
//! sixteen-bit immediate renders high-byte digits first, reversed from its
//! little-endian memory order, matching assembly-source convention. An
//! opcode absent from the table renders the literal line `unknown` and
//! still advances exactly one byte.

use vstd::prelude::*;
use vstd::string::StringExecFns;

use crate::hex::spec_hex2;

verus! {

/// What follows an opcode byte in the instruction stream: nothing, one
/// immediate byte, or a little-endian sixteen-bit immediate.
#[derive(Clone, Copy, Debug, PartialEq, Eq, Structural)]
pub enum OperandKind {
    Plain,
    Imm8,
    Imm16,
}

/// The dispatch table of the disassembler: for each opcode byte, the text
/// that precedes its operand digits and the shape of its operand. The
/// mnemonic column is eight characters wide wherever operand text
/// follows.
pub open spec fn spec_entry(op: u8) -> (Seq<char>, OperandKind) {
    if op == 0x00 {
        ("NOP"@, OperandKind::Plain)
    } else if op == 0x01 {
        ("LXI     B,$"@, OperandKind::Imm16)
    } else if op == 0x05 {
        ("DCR     B"@, OperandKind::Plain)
    } else if op == 0x06 {
        ("MVI     B,$"@, OperandKind::Imm8)
    } else if op == 0x09 {
        ("DAD     B"@, OperandKind::Plain)
    } else if op == 0x0a {
        ("LDAX    B"@, OperandKind::Plain)
    } else if op == 0x0d {
        ("DCR     C"@, OperandKind::Plain)
    } else if op == 0x0e {
        ("MVI     C,$"@, OperandKind::Imm8)
    } else if op == 0x0f {
        ("RRC"@, OperandKind::Plain)
    } else if op == 0x11 {
        ("LXI     D,$"@, OperandKind::Imm16)
    } else if op == 0x13 {
        ("INX     D"@, OperandKind::Plain)
    } else if op == 0x19 {
        ("DAD     D"@, OperandKind::Plain)
    } else if op == 0x1a {
        ("LDAX    D"@, OperandKind::Plain)
    } else if op == 0x21 {
        ("LXI     H,$"@, OperandKind::Imm16)
    } else if op == 0x23 {
        ("INX     H"@, OperandKind::Plain)
    } else if op == 0x26 {
        ("MVI     H,$"@, OperandKind::Imm8)
    } else if op == 0x29 {
        ("DAD     H"@, OperandKind::Plain)
    } else if op == 0x31 {
        ("LXI     SP,$"@, OperandKind::Imm16)
    } else if op == 0x32 {
        ("STA     $"@, OperandKind::Imm16)
    } else if op == 0x35 {
        ("DCR     M"@, OperandKind::Plain)
    } else if op == 0x36 {
        ("MVI     M,$"@, OperandKind::Imm8)
    } else if op == 0x3a {
        ("LDA     $"@, OperandKind::Imm16)
    } else if op == 0x3e {
        ("MVI     A,$"@, OperandKind::Imm8)
    } else if op == 0x56 {
        ("MOV     D,M"@, OperandKind::Plain)
    } else if op == 0x5e {
        ("MOV     E,M"@, OperandKind::Plain)
    } else if op == 0x66 {
        ("MOV     H,M"@, OperandKind::Plain)
    } else if op == 0x6f {
        ("MOV     L,A"@, OperandKind::Plain)
    } else if op == 0x77 {
        ("MOV     M,A"@, OperandKind::Plain)
    } else if op == 0x7a {
        ("MOV     A,D"@, OperandKind::Plain)
    } else if op == 0x7b {
        ("MOV     A,E"@, OperandKind::Plain)
    } else if op == 0x7c {
        ("MOV     A,H"@, OperandKind::Plain)
    } else if op == 0x7e {
        ("MOV     A,M"@, OperandKind::Plain)
    } else if op == 0xa7 {
        ("ANA     A"@, OperandKind::Plain)
    } else if op == 0xaf {
        ("XRA     A"@, OperandKind::Plain)
    } else if op == 0xc1 {
        ("POP     B"@, OperandKind::Plain)
    } else if op == 0xc2 {
        ("JNZ     $"@, OperandKind::Imm16)
    } else if op == 0xc3 {
        ("JMP     $"@, OperandKind::Imm16)
    } else if op == 0xc5 {
        ("PUSH    B"@, OperandKind::Plain)
    } else if op == 0xc6 {
        ("ADI     $"@, OperandKind::Imm8)
    } else if op == 0xc8 {
        ("RZ"@, OperandKind::Plain)
    } else if op == 0xc9 {
        ("RET"@, OperandKind::Plain)
    } else if op == 0xca {
        ("JZ      $"@, OperandKind::Imm16)
    } else if op == 0xcd {
        ("CALL    $"@, OperandKind::Imm16)
    } else if op == 0xd1 {
        ("POP     D"@, OperandKind::Plain)
    } else if op == 0xd3 {
        ("OUT     $"@, OperandKind::Imm8)
    } else if op == 0xd5 {
        ("PUSH    D"@, OperandKind::Plain)
    } else if op == 0xda {
        ("JC      $"@, OperandKind::Imm16)
    } else if op == 0xdb {
        ("IN      $"@, OperandKind::Imm8)
    } else if op == 0xe1 {
        ("POP     H"@, OperandKind::Plain)
    } else if op == 0xe5 {
        ("PUSH    H"@, OperandKind::Plain)
    } else if op == 0xe6 {
        ("ANI     $"@, OperandKind::Imm8)
    } else if op == 0xeb {
        ("XCHG"@, OperandKind::Plain)
    } else if op == 0xf1 {
        ("POP     PSW"@, OperandKind::Plain)
    } else if op == 0xf5 {
        ("PUSH    PSW"@, OperandKind::Plain)
    } else if op == 0xfb {
        ("EI"@, OperandKind::Plain)
    } else if op == 0xfe {
        ("CPI     $"@, OperandKind::Imm8)
    } else {
        ("unknown"@, OperandKind::Plain)
    }
}

/// The encoded length of the instruction that starts with `op`: one, two
/// or three bytes. An opcode absent from the table advances exactly one
/// byte.
pub open spec fn spec_op_len(op: u8) -> int {
    match spec_entry(op).1 {
        OperandKind::Plain => 1,
        OperandKind::Imm8 => 2,
        OperandKind::Imm16 => 3,
    }
}

/// The text of the one instruction that starts at `pos` in the stream.
pub open spec fn spec_line_at(s: Seq<u8>, pos: int) -> Seq<char> {
    let op = s[pos];
    match spec_entry(op).1 {
        OperandKind::Plain => spec_entry(op).0,
        OperandKind::Imm8 => spec_entry(op).0 + spec_hex2(s[pos + 1]),
        OperandKind::Imm16 => spec_entry(op).0 + spec_hex2(s[pos + 2]) + spec_hex2(s[pos + 1]),
    }
}

/// The lines of every whole instruction from `pos` to the end of the
/// stream; a trailing instruction whose operands run past the end is
/// dropped.
pub open spec fn spec_disassemble_from(s: Seq<u8>, pos: int) -> Seq<Seq<char>>
    decreases s.len() - pos,
{
    if pos < 0 || pos >= s.len() || pos + spec_op_len(s[pos]) > s.len() {
        Seq::empty()
    } else {
        seq![spec_line_at(s, pos)] + spec_disassemble_from(s, pos + spec_op_len(s[pos]))
    }
}

/// The views of a sequence of rendered lines.
pub open spec fn views_of(lines: Seq<String>) -> Seq<Seq<char>> {
    lines.map_values(|l: String| l@)
}

fn opcode_entry(op: u8) -> (r: (&'static str, OperandKind))
    ensures
        r.0@ == spec_entry(op).0,
        r.1 == spec_entry(op).1,
{
    match op {
        0x00 => ("NOP", OperandKind::Plain),
        0x01 => ("LXI     B,$", OperandKind::Imm16),
        0x05 => ("DCR     B", OperandKind::Plain),
        0x06 => ("MVI     B,$", OperandKind::Imm8),
        0x09 => ("DAD     B", OperandKind::Plain),
        0x0a => ("LDAX    B", OperandKind::Plain),
        0x0d => ("DCR     C", OperandKind::Plain),
        0x0e => ("MVI     C,$", OperandKind::Imm8),
        0x0f => ("RRC", OperandKind::Plain),
        0x11 => ("LXI     D,$", OperandKind::Imm16),
        0x13 => ("INX     D", OperandKind::Plain),
        0x19 => ("DAD     D", OperandKind::Plain),
        0x1a => ("LDAX    D", OperandKind::Plain),
        0x21 => ("LXI     H,$", OperandKind::Imm16),
        0x23 => ("INX     H", OperandKind::Plain),
        0x26 => ("MVI     H,$", OperandKind::Imm8),
        0x29 => ("DAD     H", OperandKind::Plain),
        0x31 => ("LXI     SP,$", OperandKind::Imm16),
        0x32 => ("STA     $", OperandKind::Imm16),
        0x35 => ("DCR     M", OperandKind::Plain),
        0x36 => ("MVI     M,$", OperandKind::Imm8),
        0x3a => ("LDA     $", OperandKind::Imm16),
        0x3e => ("MVI     A,$", OperandKind::Imm8),
        0x56 => ("MOV     D,M", OperandKind::Plain),
        0x5e => ("MOV     E,M", OperandKind::Plain),
        0x66 => ("MOV     H,M", OperandKind::Plain),
        0x6f => ("MOV     L,A", OperandKind::Plain),
        0x77 => ("MOV     M,A", OperandKind::Plain),
        0x7a => ("MOV     A,D", OperandKind::Plain),
        0x7b => ("MOV     A,E", OperandKind::Plain),
        0x7c => ("MOV     A,H", OperandKind::Plain),
        0x7e => ("MOV     A,M", OperandKind::Plain),
        0xa7 => ("ANA     A", OperandKind::Plain),
        0xaf => ("XRA     A", OperandKind::Plain),
        0xc1 => ("POP     B", OperandKind::Plain),
        0xc2 => ("JNZ     $", OperandKind::Imm16),
        0xc3 => ("JMP     $", OperandKind::Imm16),
        0xc5 => ("PUSH    B", OperandKind::Plain),
        0xc6 => ("ADI     $", OperandKind::Imm8),
        0xc8 => ("RZ", OperandKind::Plain),
        0xc9 => ("RET", OperandKind::Plain),
        0xca => ("JZ      $", OperandKind::Imm16),
        0xcd => ("CALL    $", OperandKind::Imm16),
        0xd1 => ("POP     D", OperandKind::Plain),
        0xd3 => ("OUT     $", OperandKind::Imm8),
        0xd5 => ("PUSH    D", OperandKind::Plain),
        0xda => ("JC      $", OperandKind::Imm16),
        0xdb => ("IN      $", OperandKind::Imm8),
        0xe1 => ("POP     H", OperandKind::Plain),
        0xe5 => ("PUSH    H", OperandKind::Plain),
        0xe6 => ("ANI     $", OperandKind::Imm8),
        0xeb => ("XCHG", OperandKind::Plain),
        0xf1 => ("POP     PSW", OperandKind::Plain),
        0xf5 => ("PUSH    PSW", OperandKind::Plain),
        0xfb => ("EI", OperandKind::Plain),
        0xfe => ("CPI     $", OperandKind::Imm8),
        _ => ("unknown", OperandKind::Plain),
    }
}

/// The encoded length of the instruction that starts with `op`.
pub fn opcode_len(op: u8) -> (n: usize)
    ensures
        n == spec_op_len(op),
        1 <= n <= 3,
{
    let (_, kind) = opcode_entry(op);
    match kind {
        OperandKind::Plain => 1,
        OperandKind::Imm8 => 2,
        OperandKind::Imm16 => 3,
    }
}

/// Renders the one instruction that starts at `pos` and tells how many
/// bytes it occupies.
pub fn disassemble_instruction(bytes: &Vec<u8>, pos: usize) -> (r: (String, usize))
    requires
        pos < bytes@.len(),
        pos + spec_op_len(bytes@[pos as int]) <= bytes@.len(),
    ensures
        r.0@ == spec_line_at(bytes@, pos as int),
        r.1 == spec_op_len(bytes@[pos as int]),
{
    // Binding the executable length bounds the stream within the address
    // space, which the operand index arithmetic below needs.
    let _n = bytes.len();
    let op = bytes[pos];
    let (prefix, kind) = opcode_entry(op);
    match kind {
        OperandKind::Plain => (prefix.to_owned(), 1),
        OperandKind::Imm8 => {
            proof {
                assert(spec_op_len(bytes@[pos as int]) == 2);
            }
            let mut out = prefix.to_owned();
            out.append(crate::hex::format(bytes[pos + 1]).as_str());
            (out, 2)
        },
        OperandKind::Imm16 => {
            proof {
                assert(spec_op_len(bytes@[pos as int]) == 3);
            }
            let mut out = prefix.to_owned();
            out.append(crate::hex::format(bytes[pos + 2]).as_str());
            out.append(crate::hex::format(bytes[pos + 1]).as_str());
            (out, 3)
        },
    }
}

/// Renders every whole instruction of the stream, one line each, starting
/// at address zero; a trailing instruction whose operands run past the
/// end is dropped.
pub fn disassemble(bytes: &Vec<u8>) -> (lines: Vec<String>)
    ensures
        views_of(lines@) == spec_disassemble_from(bytes@, 0),
{
    let n = bytes.len();
    let mut lines: Vec<String> = Vec::new();
    let mut pos: usize = 0;
    while pos < n && opcode_len(bytes[pos]) <= n - pos
        invariant
            n == bytes@.len(),
            pos <= n,
            spec_disassemble_from(bytes@, 0) == views_of(lines@) + spec_disassemble_from(
                bytes@,
                pos as int,
            ),
        decreases n - pos,
    {
        let (line, len) = disassemble_instruction(bytes, pos);
        let ghost prev_lines = lines@;
        let ghost prev_pos = pos as int;
        lines.push(line);
        pos += len;
        proof {
            assert(views_of(lines@) =~= views_of(prev_lines) + seq![line@]);
            assert(spec_disassemble_from(bytes@, prev_pos) == seq![spec_line_at(bytes@, prev_pos)]
                + spec_disassemble_from(bytes@, pos as int));
            assert(views_of(prev_lines) + spec_disassemble_from(bytes@, prev_pos) =~= views_of(
                lines@,
            ) + spec_disassemble_from(bytes@, pos as int));
        }
    }
    proof {
        assert(spec_disassemble_from(bytes@, pos as int) =~= Seq::<Seq<char>>::empty());
        assert(views_of(lines@) + spec_disassemble_from(bytes@, pos as int) =~= views_of(lines@));
    }
    lines
}

} // verus!
