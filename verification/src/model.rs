//! The mathematical model of the machine and the transition that one
//! fetch/decode/execute step denotes.
//!
//! `spec_step` is the single source of truth for the execution engine: it
//! maps a machine state to either the successor state or a fault, and the
//! executable engine is proved to implement it exactly. A fault never
//! changes the state: either every read and write of an instruction is in
//! range and the whole effect is applied, or nothing is.

use vstd::prelude::*;

use crate::fault::Fault;
use crate::flags::ConditionCodes;
use crate::flags::spec_logic_flags;
use crate::flags::spec_pack_psw;
use crate::flags::spec_unpack_psw;
use crate::flags::spec_zsp;

verus! {

/// Capacity of the flat byte-addressable memory, in bytes.
pub const MEM_SIZE: usize = 65536;

/// The whole machine at the specification level: eight-bit registers, the
/// stack pointer and program counter (addresses into memory), the
/// interrupt-enable flag, the memory contents, and the condition codes.
#[verifier::ext_equal]
pub ghost struct VmState {
    pub a: u8,
    pub b: u8,
    pub c: u8,
    pub d: u8,
    pub e: u8,
    pub h: u8,
    pub l: u8,
    pub sp: usize,
    pub pc: usize,
    pub int_enable: u8,
    pub mem: Seq<u8>,
    pub flags: ConditionCodes,
}

/// Well-formedness: memory has exactly its fixed capacity.
pub open spec fn wf(s: VmState) -> bool {
    s.mem.len() == MEM_SIZE
}

/// A sixteen-bit value composed from a low and a high byte.
pub open spec fn word(lo: u8, hi: u8) -> int {
    hi * 256 + lo
}

/// Eight-bit addition with modulo-256 wrapping.
pub open spec fn wrap_add8(x: u8, y: u8) -> u8 {
    ((x + y) % 256) as u8
}

/// Eight-bit subtraction with modulo-256 wrapping.
pub open spec fn wrap_sub8(x: u8, y: u8) -> u8 {
    ((x - y + 256) % 256) as u8
}

/// The state with the program counter advanced by the encoded length of a
/// non-transfer instruction.
pub open spec fn adv(s: VmState, n: int) -> VmState {
    VmState { pc: (s.pc + n) as usize, ..s }
}

/// The operand byte of a two-byte instruction, or the fault for a read
/// beyond memory.
pub open spec fn spec_read1(s: VmState) -> Result<u8, Fault> {
    if s.pc + 1 < s.mem.len() {
        Ok(s.mem[s.pc + 1])
    } else {
        Err(Fault::OutOfRangeMemoryAccess((s.pc + 1) as usize))
    }
}

/// The two operand bytes of a three-byte instruction in stream order (low
/// byte first), or the fault for the first read beyond memory.
pub open spec fn spec_read2(s: VmState) -> Result<(u8, u8), Fault> {
    if s.pc + 1 >= s.mem.len() {
        Err(Fault::OutOfRangeMemoryAccess((s.pc + 1) as usize))
    } else if s.pc + 2 >= s.mem.len() {
        Err(Fault::OutOfRangeMemoryAccess((s.pc + 2) as usize))
    } else {
        Ok((s.mem[s.pc + 1], s.mem[s.pc + 2]))
    }
}

/// A push of two bytes onto the downward-growing stack: the high byte goes
/// to SP-1, the low byte to SP-2, and SP decreases by 2. A stack pointer
/// below 2 reports itself as the offending address; one above memory
/// reports the first address written.
pub open spec fn spec_push(s: VmState, hi: u8, lo: u8) -> Result<VmState, Fault> {
    if s.sp < 2 {
        Err(Fault::OutOfRangeMemoryAccess(s.sp))
    } else if s.sp - 1 >= s.mem.len() {
        Err(Fault::OutOfRangeMemoryAccess((s.sp - 1) as usize))
    } else {
        Ok(
            VmState {
                sp: (s.sp - 2) as usize,
                mem: s.mem.update(s.sp - 1, hi).update(s.sp - 2, lo),
                ..s
            },
        )
    }
}

/// A pop of two bytes from the stack: the low byte from SP, the high byte
/// from SP+1, and SP increases by 2.
pub open spec fn spec_pop(s: VmState) -> Result<(VmState, u8, u8), Fault> {
    if s.sp >= s.mem.len() {
        Err(Fault::OutOfRangeMemoryAccess(s.sp))
    } else if s.sp + 1 >= s.mem.len() {
        Err(Fault::OutOfRangeMemoryAccess((s.sp + 1) as usize))
    } else {
        Ok((VmState { sp: (s.sp + 2) as usize, ..s }, s.mem[s.sp as int], s.mem[s.sp + 1]))
    }
}

/// Sixteen-bit pair addition: HL becomes the low sixteen bits of HL plus
/// the addend, and Carry alone is set, exactly when the sum overflows
/// sixteen bits.
pub open spec fn spec_dad(s: VmState, addend: int) -> VmState {
    let sum = word(s.l, s.h) + addend;
    VmState {
        h: ((sum / 256) % 256) as u8,
        l: (sum % 256) as u8,
        flags: ConditionCodes {
            cy: if sum >= 0x10000 {
                1
            } else {
                0
            },
            ..s.flags
        },
        ..s
    }
}

/// An interrupt delivery: the sixteen-bit program counter is pushed with
/// the same discipline as a call, the program counter becomes eight times
/// the vector number, and interrupts are disabled until the program
/// re-enables them.
pub open spec fn spec_interrupt(s: VmState, interrupt_num: i32) -> Result<VmState, Fault> {
    let ret = s.pc % 0x10000;
    match spec_push(s, (ret / 256) as u8, (ret % 256) as u8) {
        Ok(s2) => Ok(VmState { pc: (8 * interrupt_num) as usize, int_enable: 0, ..s2 }),
        Err(f) => Err(f),
    }
}

/// The effect of the opcode `op` fetched at the program counter of `s`.
pub open spec fn spec_dispatch(s: VmState, op: u8) -> Result<VmState, Fault>
    recommends
        wf(s),
        s.pc < s.mem.len(),
{
    if op == 0x00 {  // NOP
        Ok(adv(s, 1))
    } else if op == 0x01 {  // LXI B
        match spec_read2(s) {
            Ok((lo, hi)) => Ok(adv(VmState { c: lo, b: hi, ..s }, 3)),
            Err(f) => Err(f),
        }
    } else if op == 0x05 {  // DCR B
        let r = wrap_sub8(s.b, 1);
        Ok(adv(VmState { b: r, flags: spec_zsp(s.flags, r), ..s }, 1))
    } else if op == 0x06 {  // MVI B
        match spec_read1(s) {
            Ok(v) => Ok(adv(VmState { b: v, ..s }, 2)),
            Err(f) => Err(f),
        }
    } else if op == 0x09 {  // DAD B
        Ok(adv(spec_dad(s, word(s.c, s.b)), 1))
    } else if op == 0x0a {  // LDAX B
        Ok(adv(VmState { a: s.mem[word(s.c, s.b)], ..s }, 1))
    } else if op == 0x0d {  // DCR C
        let r = wrap_sub8(s.c, 1);
        Ok(adv(VmState { c: r, flags: spec_zsp(s.flags, r), ..s }, 1))
    } else if op == 0x0e {  // MVI C
        match spec_read1(s) {
            Ok(v) => Ok(adv(VmState { c: v, ..s }, 2)),
            Err(f) => Err(f),
        }
    } else if op == 0x0f {  // RRC
        Ok(
            adv(
                VmState {
                    a: ((s.a & 1) << 7) | (s.a >> 1),
                    flags: ConditionCodes {
                        cy: if s.a & 1 == 1 {
                            1
                        } else {
                            0
                        },
                        ..s.flags
                    },
                    ..s
                },
                1,
            ),
        )
    } else if op == 0x11 {  // LXI D
        match spec_read2(s) {
            Ok((lo, hi)) => Ok(adv(VmState { e: lo, d: hi, ..s }, 3)),
            Err(f) => Err(f),
        }
    } else if op == 0x13 {  // INX D
        let e2 = wrap_add8(s.e, 1);
        Ok(
            adv(
                VmState {
                    e: e2,
                    d: if e2 == 0 {
                        wrap_add8(s.d, 1)
                    } else {
                        s.d
                    },
                    ..s
                },
                1,
            ),
        )
    } else if op == 0x19 {  // DAD D
        Ok(adv(spec_dad(s, word(s.e, s.d)), 1))
    } else if op == 0x1a {  // LDAX D
        Ok(adv(VmState { a: s.mem[word(s.e, s.d)], ..s }, 1))
    } else if op == 0x21 {  // LXI H
        match spec_read2(s) {
            Ok((lo, hi)) => Ok(adv(VmState { l: lo, h: hi, ..s }, 3)),
            Err(f) => Err(f),
        }
    } else if op == 0x23 {  // INX H
        let l2 = wrap_add8(s.l, 1);
        Ok(
            adv(
                VmState {
                    l: l2,
                    h: if l2 == 0 {
                        wrap_add8(s.h, 1)
                    } else {
                        s.h
                    },
                    ..s
                },
                1,
            ),
        )
    } else if op == 0x26 {  // MVI H
        match spec_read1(s) {
            Ok(v) => Ok(adv(VmState { h: v, ..s }, 2)),
            Err(f) => Err(f),
        }
    } else if op == 0x29 {  // DAD H
        Ok(adv(spec_dad(s, word(s.l, s.h)), 1))
    } else if op == 0x31 {  // LXI SP
        match spec_read2(s) {
            Ok((lo, hi)) => Ok(adv(VmState { sp: word(lo, hi) as usize, ..s }, 3)),
            Err(f) => Err(f),
        }
    } else if op == 0x32 {  // STA
        match spec_read2(s) {
            Ok((lo, hi)) => Ok(adv(VmState { mem: s.mem.update(word(lo, hi), s.a), ..s }, 3)),
            Err(f) => Err(f),
        }
    } else if op == 0x35 {  // DCR M
        let r = wrap_sub8(s.mem[word(s.l, s.h)], 1);
        Ok(
            adv(
                VmState {
                    mem: s.mem.update(word(s.l, s.h), r),
                    flags: spec_zsp(s.flags, r),
                    ..s
                },
                1,
            ),
        )
    } else if op == 0x36 {  // MVI M
        match spec_read1(s) {
            Ok(v) => Ok(adv(VmState { mem: s.mem.update(word(s.l, s.h), v), ..s }, 2)),
            Err(f) => Err(f),
        }
    } else if op == 0x3a {  // LDA
        match spec_read2(s) {
            Ok((lo, hi)) => Ok(adv(VmState { a: s.mem[word(lo, hi)], ..s }, 3)),
            Err(f) => Err(f),
        }
    } else if op == 0x3e {  // MVI A
        match spec_read1(s) {
            Ok(v) => Ok(adv(VmState { a: v, ..s }, 2)),
            Err(f) => Err(f),
        }
    } else if op == 0x56 {  // MOV D,M
        Ok(adv(VmState { d: s.mem[word(s.l, s.h)], ..s }, 1))
    } else if op == 0x5e {  // MOV E,M
        Ok(adv(VmState { e: s.mem[word(s.l, s.h)], ..s }, 1))
    } else if op == 0x66 {  // MOV H,M
        Ok(adv(VmState { h: s.mem[word(s.l, s.h)], ..s }, 1))
    } else if op == 0x6f {  // MOV L,A
        Ok(adv(VmState { l: s.a, ..s }, 1))
    } else if op == 0x77 {  // MOV M,A
        Ok(adv(VmState { mem: s.mem.update(word(s.l, s.h), s.a), ..s }, 1))
    } else if op == 0x7a {  // MOV A,D
        Ok(adv(VmState { a: s.d, ..s }, 1))
    } else if op == 0x7b {  // MOV A,E
        Ok(adv(VmState { a: s.e, ..s }, 1))
    } else if op == 0x7c {  // MOV A,H
        Ok(adv(VmState { a: s.h, ..s }, 1))
    } else if op == 0x7e {  // MOV A,M
        Ok(adv(VmState { a: s.mem[word(s.l, s.h)], ..s }, 1))
    } else if op == 0xa7 {  // ANA A
        Ok(adv(VmState { flags: spec_logic_flags(s.flags, s.a), ..s }, 1))
    } else if op == 0xaf {  // XRA A
        Ok(adv(VmState { a: 0, flags: spec_logic_flags(s.flags, 0), ..s }, 1))
    } else if op == 0xc1 {  // POP B
        match spec_pop(s) {
            Ok((s2, lo, hi)) => Ok(adv(VmState { c: lo, b: hi, ..s2 }, 1)),
            Err(f) => Err(f),
        }
    } else if op == 0xc2 {  // JNZ
        if s.flags.z == 0 {
            match spec_read2(s) {
                Ok((lo, hi)) => Ok(VmState { pc: word(lo, hi) as usize, ..s }),
                Err(f) => Err(f),
            }
        } else {
            Ok(adv(s, 3))
        }
    } else if op == 0xc3 {  // JMP
        match spec_read2(s) {
            Ok((lo, hi)) => Ok(VmState { pc: word(lo, hi) as usize, ..s }),
            Err(f) => Err(f),
        }
    } else if op == 0xc5 {  // PUSH B
        match spec_push(s, s.b, s.c) {
            Ok(s2) => Ok(adv(s2, 1)),
            Err(f) => Err(f),
        }
    } else if op == 0xc6 {  // ADI
        match spec_read1(s) {
            Ok(v) => {
                let sum = s.a + v;
                let r = (sum % 256) as u8;
                Ok(
                    adv(
                        VmState {
                            a: r,
                            flags: ConditionCodes {
                                cy: if sum > 0xff {
                                    1
                                } else {
                                    0
                                },
                                ..spec_zsp(s.flags, r)
                            },
                            ..s
                        },
                        2,
                    ),
                )
            },
            Err(f) => Err(f),
        }
    } else if op == 0xc8 {  // RZ
        if s.flags.z == 1 {
            match spec_pop(s) {
                Ok((s2, lo, hi)) => Ok(VmState { pc: word(lo, hi) as usize, ..s2 }),
                Err(f) => Err(f),
            }
        } else {
            Ok(adv(s, 1))
        }
    } else if op == 0xc9 {  // RET
        match spec_pop(s) {
            Ok((s2, lo, hi)) => Ok(VmState { pc: word(lo, hi) as usize, ..s2 }),
            Err(f) => Err(f),
        }
    } else if op == 0xca {  // JZ
        if s.flags.z == 1 {
            match spec_read2(s) {
                Ok((lo, hi)) => Ok(VmState { pc: word(lo, hi) as usize, ..s }),
                Err(f) => Err(f),
            }
        } else {
            Ok(adv(s, 3))
        }
    } else if op == 0xcd {  // CALL
        match spec_read2(s) {
            Ok((lo, hi)) => {
                let ret = (s.pc + 3) % 0x10000;
                match spec_push(s, (ret / 256) as u8, (ret % 256) as u8) {
                    Ok(s2) => Ok(VmState { pc: word(lo, hi) as usize, ..s2 }),
                    Err(f) => Err(f),
                }
            },
            Err(f) => Err(f),
        }
    } else if op == 0xd1 {  // POP D
        match spec_pop(s) {
            Ok((s2, lo, hi)) => Ok(adv(VmState { e: lo, d: hi, ..s2 }, 1)),
            Err(f) => Err(f),
        }
    } else if op == 0xd3 {  // OUT
        match spec_read1(s) {
            Ok(_) => Ok(adv(s, 2)),
            Err(f) => Err(f),
        }
    } else if op == 0xd5 {  // PUSH D
        match spec_push(s, s.d, s.e) {
            Ok(s2) => Ok(adv(s2, 1)),
            Err(f) => Err(f),
        }
    } else if op == 0xda {  // JC
        if s.flags.cy != 0 {
            match spec_read2(s) {
                Ok((lo, hi)) => Ok(VmState { pc: word(lo, hi) as usize, ..s }),
                Err(f) => Err(f),
            }
        } else {
            Ok(adv(s, 3))
        }
    } else if op == 0xdb {  // IN
        match spec_read1(s) {
            Ok(_) => Ok(adv(VmState { a: 0, ..s }, 2)),
            Err(f) => Err(f),
        }
    } else if op == 0xe1 {  // POP H
        match spec_pop(s) {
            Ok((s2, lo, hi)) => Ok(adv(VmState { l: lo, h: hi, ..s2 }, 1)),
            Err(f) => Err(f),
        }
    } else if op == 0xe5 {  // PUSH H
        match spec_push(s, s.h, s.l) {
            Ok(s2) => Ok(adv(s2, 1)),
            Err(f) => Err(f),
        }
    } else if op == 0xe6 {  // ANI
        match spec_read1(s) {
            Ok(v) => {
                let r = s.a & v;
                Ok(adv(VmState { a: r, flags: spec_logic_flags(s.flags, r), ..s }, 2))
            },
            Err(f) => Err(f),
        }
    } else if op == 0xeb {  // XCHG
        Ok(adv(VmState { d: s.h, e: s.l, h: s.d, l: s.e, ..s }, 1))
    } else if op == 0xf1 {  // POP PSW
        match spec_pop(s) {
            Ok((s2, lo, hi)) => Ok(
                adv(VmState { a: hi, flags: spec_unpack_psw(s.flags, lo), ..s2 }, 1),
            ),
            Err(f) => Err(f),
        }
    } else if op == 0xf5 {  // PUSH PSW
        match spec_push(s, s.a, spec_pack_psw(s.flags)) {
            Ok(s2) => Ok(adv(s2, 1)),
            Err(f) => Err(f),
        }
    } else if op == 0xfb {  // EI
        Ok(adv(VmState { int_enable: 1, ..s }, 1))
    } else if op == 0xfe {  // CPI
        match spec_read1(s) {
            Ok(v) => {
                let r = wrap_sub8(s.a, v);
                Ok(
                    adv(
                        VmState {
                            flags: ConditionCodes {
                                cy: if s.a < v {
                                    1
                                } else {
                                    0
                                },
                                ..spec_zsp(s.flags, r)
                            },
                            ..s
                        },
                        2,
                    ),
                )
            },
            Err(f) => Err(f),
        }
    } else {
        Err(Fault::UnimplementedOpcode(op))
    }
}

/// One whole step: fetch the opcode at the program counter (a counter at
/// or beyond memory is itself the out-of-range fault) and apply its
/// effect.
pub open spec fn spec_step(s: VmState) -> Result<VmState, Fault>
    recommends
        wf(s),
{
    if s.pc >= s.mem.len() {
        Err(Fault::OutOfRangeMemoryAccess(s.pc))
    } else {
        spec_dispatch(s, s.mem[s.pc as int])
    }
}

} // verus!
