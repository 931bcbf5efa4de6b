//! The executable machine: registers, memory, condition codes, and the
//! fetch/decode/execute engine, each step proved equal to the transition
//! function of the model.

use vstd::prelude::*;
use vstd::string::StringExecFns;

use crate::fault::Fault;
use crate::hex::format_usize;
use crate::hex::spec_hex2;
use crate::hex::spec_hex4;
use crate::flags::ConditionCodes;
use crate::flags::spec_logic_flags;
use crate::flags::spec_parity;
use crate::flags::spec_zsp;
use crate::model::MEM_SIZE;
use crate::model::VmState;
use crate::model::spec_dad;
use crate::model::spec_interrupt;
use crate::model::spec_step;
use crate::model::spec_pop;
use crate::model::spec_push;
use crate::model::spec_read1;
use crate::model::spec_read2;
use crate::model::word;
use crate::model::wrap_add8;
use crate::model::wrap_sub8;

verus! {

/// The machine: eight-bit registers, stack pointer and program counter
/// (addresses into memory), the interrupt-enable flag, the exclusively
/// owned memory, and the condition codes.
pub struct Vm {
    pub a: u8,
    pub b: u8,
    pub c: u8,
    pub d: u8,
    pub e: u8,
    pub h: u8,
    pub l: u8,
    pub sp: usize,
    pub pc: usize,
    pub int_enable: u8,
    pub memory: Vec<u8>,
    pub condition_codes: ConditionCodes,
}

impl View for Vm {
    type V = VmState;

    open spec fn view(&self) -> VmState {
        VmState {
            a: self.a,
            b: self.b,
            c: self.c,
            d: self.d,
            e: self.e,
            h: self.h,
            l: self.l,
            sp: self.sp,
            pc: self.pc,
            int_enable: self.int_enable,
            mem: self.memory@,
            flags: self.condition_codes,
        }
    }
}

/// The machine state at construction: every register, flag and memory
/// byte zero, and memory at its full fixed capacity.
pub open spec fn spec_new_vm() -> VmState {
    VmState {
        a: 0,
        b: 0,
        c: 0,
        d: 0,
        e: 0,
        h: 0,
        l: 0,
        sp: 0,
        pc: 0,
        int_enable: 0,
        mem: Seq::new(MEM_SIZE as nat, |i: int| 0u8),
        flags: ConditionCodes { z: 0, s: 0, p: 0, cy: 0, ac: 0, pad: 0 },
    }
}

impl Vm {
    /// Well-formedness: memory has exactly its fixed capacity.
    pub open spec fn wf(&self) -> bool {
        self.memory@.len() == MEM_SIZE
    }

    /// A machine with zeroed registers and flags and zero-filled memory.
    pub fn new() -> (vm: Vm)
        ensures
            vm.wf(),
            vm@ == spec_new_vm(),
    {
        let mut memory: Vec<u8> = Vec::new();
        while memory.len() < MEM_SIZE
            invariant
                memory@.len() <= MEM_SIZE,
                forall|j: int| 0 <= j < memory@.len() ==> memory@[j] == 0u8,
            decreases MEM_SIZE - memory@.len(),
        {
            memory.push(0);
        }
        let vm = Vm {
            a: 0,
            b: 0,
            c: 0,
            d: 0,
            e: 0,
            h: 0,
            l: 0,
            sp: 0,
            pc: 0,
            int_enable: 0,
            memory,
            condition_codes: ConditionCodes { z: 0, s: 0, p: 0, cy: 0, ac: 0, pad: 0 },
        };
        proof {
            assert(vm@.mem =~= spec_new_vm().mem);
            assert(vm@ =~= spec_new_vm());
        }
        vm
    }

    /// Copies the ROM image verbatim into memory starting at address zero;
    /// the rest of memory keeps its previous contents. The image must fit
    /// within capacity: the loader checks that before the machine loads.
    pub fn load_rom(&mut self, rom: Vec<u8>)
        requires
            old(self).wf(),
            rom@.len() <= MEM_SIZE,
        ensures
            final(self).wf(),
            final(self)@ == (VmState {
                mem: rom@ + old(self)@.mem.skip(rom@.len() as int),
                ..old(self)@
            }),
    {
        let n = rom.len();
        let mut i: usize = 0;
        while i < n
            invariant
                n == rom@.len() <= MEM_SIZE,
                i <= n,
                self.memory@.len() == MEM_SIZE,
                forall|j: int| 0 <= j < i ==> self.memory@[j] == rom@[j],
                forall|j: int| i <= j < MEM_SIZE ==> self.memory@[j] == old(self).memory@[j],
                self.a == old(self).a,
                self.b == old(self).b,
                self.c == old(self).c,
                self.d == old(self).d,
                self.e == old(self).e,
                self.h == old(self).h,
                self.l == old(self).l,
                self.sp == old(self).sp,
                self.pc == old(self).pc,
                self.int_enable == old(self).int_enable,
                self.condition_codes == old(self).condition_codes,
            decreases n - i,
        {
            self.memory[i] = rom[i];
            i += 1;
        }
        proof {
            assert(self@.mem =~= rom@ + old(self)@.mem.skip(rom@.len() as int));
            assert(self@ =~= (VmState {
                mem: rom@ + old(self)@.mem.skip(rom@.len() as int),
                ..old(self)@
            }));
        }
    }

    /// A sixteen-bit address composed from a low and a high byte.
    pub fn merge_addr_pair(&self, lo: u8, hi: u8) -> (r: u16)
        ensures
            r == word(lo, hi),
    {
        let mut new_addr: u16 = (hi as u16) << 8;
        new_addr = new_addr | (lo as u16);
        proof {
            assert((((hi as u16) << 8) | (lo as u16)) == hi as u16 * 256 + lo as u16)
                by (bit_vector);
        }
        new_addr
    }

    /// Eight-bit addition with modulo-256 wrapping: overflow wraps
    /// silently, never faults.
    pub fn floating_point_add(&self, x: u8, y: u8) -> (r: u8)
        ensures
            r == wrap_add8(x, y),
    {
        x.wrapping_add(y)
    }

    /// Eight-bit subtraction with modulo-256 wrapping: underflow wraps
    /// silently, never faults.
    pub fn floating_point_sub(&self, x: u8, y: u8) -> (r: u8)
        ensures
            r == wrap_sub8(x, y),
    {
        x.wrapping_sub(y)
    }

    /// The parity flag of a result byte: 1 exactly when the number of set
    /// bits is even.
    pub fn parity(&mut self, res: u8) -> (r: u8)
        ensures
            *final(self) == *old(self),
            r == spec_parity(res),
    {
        let count = bit_of(res, 0) + bit_of(res, 1) + bit_of(res, 2) + bit_of(res, 3) + bit_of(
            res,
            4,
        ) + bit_of(res, 5) + bit_of(res, 6) + bit_of(res, 7);
        if count % 2 == 0 {
            1
        } else {
            0
        }
    }

    /// Recomputes Zero, Sign and Parity from a result byte; Carry and
    /// Auxiliary-carry persist unchanged.
    pub fn zsp_flags(&mut self, value: u8)
        ensures
            final(self)@ == (VmState {
                flags: spec_zsp(old(self)@.flags, value),
                ..old(self)@
            }),
    {
        self.condition_codes.z = if value == 0 {
            1
        } else {
            0
        };
        self.condition_codes.s = if (value & 0x80) == 0x80 {
            1
        } else {
            0
        };
        let p = self.parity(value);
        self.condition_codes.p = p;
    }

    /// The flags after a logical operation on the accumulator: Carry and
    /// Auxiliary-carry cleared, Zero, Sign and Parity from the
    /// accumulator.
    pub fn logic_flags_a(&mut self)
        ensures
            final(self)@ == (VmState {
                flags: spec_logic_flags(old(self)@.flags, old(self).a),
                ..old(self)@
            }),
    {
        let a = self.a;
        self.zsp_flags(a);
        self.condition_codes.cy = 0;
        self.condition_codes.ac = 0;
    }

    /// The byte of memory at `addr`; any address at or beyond capacity is
    /// the out-of-range fault, never clamped or wrapped.
    pub fn mem_get(&self, addr: usize) -> (r: Result<u8, Fault>)
        requires
            self.wf(),
        ensures
            addr < MEM_SIZE ==> r == Ok::<u8, Fault>(self@.mem[addr as int]),
            addr >= MEM_SIZE ==> r == Err::<u8, Fault>(Fault::OutOfRangeMemoryAccess(addr)),
    {
        if addr >= MEM_SIZE {
            return Err(Fault::OutOfRangeMemoryAccess(addr));
        }
        Ok(self.memory[addr])
    }

    /// Writes the byte of memory at `addr`; any address at or beyond
    /// capacity is the out-of-range fault, and nothing changes.
    pub fn mem_set(&mut self, addr: usize, value: u8) -> (r: Result<(), Fault>)
        requires
            old(self).wf(),
        ensures
            final(self).wf(),
            addr < MEM_SIZE ==> r is Ok && final(self)@ == (VmState {
                mem: old(self)@.mem.update(addr as int, value),
                ..old(self)@
            }),
            addr >= MEM_SIZE ==> r == Err::<(), Fault>(Fault::OutOfRangeMemoryAccess(addr))
                && final(self)@ == old(self)@,
    {
        if addr >= MEM_SIZE {
            return Err(Fault::OutOfRangeMemoryAccess(addr));
        }
        self.memory[addr] = value;
        Ok(())
    }

    /// The byte of memory addressed by the HL register pair.
    pub fn read_from_hl(&self) -> (r: u8)
        requires
            self.wf(),
        ensures
            r == self@.mem[word(self.l, self.h)],
    {
        let offset = self.merge_addr_pair(self.l, self.h);
        self.memory[offset as usize]
    }

    /// Writes a byte to the memory addressed by the HL register pair.
    pub fn write_to_hl(&mut self, value: u8)
        requires
            old(self).wf(),
        ensures
            final(self)@ == (VmState {
                mem: old(self)@.mem.update(word(old(self).l, old(self).h), value),
                ..old(self)@
            }),
    {
        let offset = self.merge_addr_pair(self.l, self.h);
        self.memory[offset as usize] = value;
    }

    /// Pushes two bytes onto the downward-growing stack: the high byte at
    /// SP-1, the low byte at SP-2, SP decreased by 2; a stack pointer that
    /// leaves either address outside memory is the out-of-range fault, and
    /// nothing changes.
    pub fn push_stack(&mut self, hi: u8, lo: u8) -> (r: Result<(), Fault>)
        requires
            old(self).wf(),
        ensures
            final(self).wf(),
            spec_push(old(self)@, hi, lo) matches Ok(s2) ==> r is Ok && final(self)@ == s2,
            spec_push(old(self)@, hi, lo) matches Err(f) ==> r == Err::<(), Fault>(f)
                && final(self)@ == old(self)@,
    {
        if self.sp < 2 {
            return Err(Fault::OutOfRangeMemoryAccess(self.sp));
        }
        if self.sp - 1 >= MEM_SIZE {
            return Err(Fault::OutOfRangeMemoryAccess(self.sp - 1));
        }
        self.memory[self.sp - 1] = hi;
        self.memory[self.sp - 2] = lo;
        self.sp -= 2;
        Ok(())
    }

    /// Pops two bytes from the stack: the low byte from SP, the high byte
    /// from SP+1, SP increased by 2; a stack pointer that leaves either
    /// address outside memory is the out-of-range fault, and nothing
    /// changes.
    fn pop_stack(&mut self) -> (r: Result<(u8, u8), Fault>)
        requires
            old(self).wf(),
        ensures
            final(self).wf(),
            spec_pop(old(self)@) matches Ok((s2, lo, hi)) ==> r == Ok::<(u8, u8), Fault>((lo, hi))
                && final(self)@ == s2,
            spec_pop(old(self)@) matches Err(f) ==> r == Err::<(u8, u8), Fault>(f) && final(self)@
                == old(self)@,
    {
        if self.sp >= MEM_SIZE {
            return Err(Fault::OutOfRangeMemoryAccess(self.sp));
        }
        if self.sp + 1 >= MEM_SIZE {
            return Err(Fault::OutOfRangeMemoryAccess(self.sp + 1));
        }
        let lo = self.memory[self.sp];
        let hi = self.memory[self.sp + 1];
        self.sp += 2;
        Ok((lo, hi))
    }

    /// The operand byte of a two-byte instruction, or the fault for a
    /// read beyond memory.
    fn read_imm8(&self) -> (r: Result<u8, Fault>)
        requires
            self.wf(),
            self.pc < MEM_SIZE,
        ensures
            r == spec_read1(self@),
    {
        if self.pc + 1 >= MEM_SIZE {
            return Err(Fault::OutOfRangeMemoryAccess(self.pc + 1));
        }
        Ok(self.memory[self.pc + 1])
    }

    /// The two operand bytes of a three-byte instruction in stream order
    /// (low byte first), or the fault for the first read beyond memory.
    fn read_imm16(&self) -> (r: Result<(u8, u8), Fault>)
        requires
            self.wf(),
            self.pc < MEM_SIZE,
        ensures
            r == spec_read2(self@),
    {
        if self.pc + 1 >= MEM_SIZE {
            return Err(Fault::OutOfRangeMemoryAccess(self.pc + 1));
        }
        if self.pc + 2 >= MEM_SIZE {
            return Err(Fault::OutOfRangeMemoryAccess(self.pc + 2));
        }
        Ok((self.memory[self.pc + 1], self.memory[self.pc + 2]))
    }

    /// Sixteen-bit pair addition into HL, setting Carry alone, exactly
    /// when the sum overflows sixteen bits.
    fn dad_pair(&mut self, addend: u16)
        requires
            old(self).wf(),
        ensures
            final(self)@ == spec_dad(old(self)@, addend as int),
    {
        let hl: u32 = self.merge_addr_pair(self.l, self.h) as u32;
        let sum: u32 = hl + addend as u32;
        self.h = ((sum / 256) % 256) as u8;
        self.l = (sum % 256) as u8;
        self.condition_codes.cy = if sum > 0xffff {
            1
        } else {
            0
        };
    }

    /// Executes exactly one instruction: fetches the opcode at the
    /// program counter, dispatches on its exact value, and applies its
    /// whole effect — or reports a fault and changes nothing. The result
    /// is `Ok` exactly when the model's transition succeeds, and the new
    /// state is exactly the state the model gives.
    #[verifier::rlimit(100)]
    pub fn run_current_opcode(&mut self) -> (r: Result<(), Fault>)
        requires
            old(self).wf(),
        ensures
            final(self).wf(),
            spec_step(old(self)@) matches Ok(s2) ==> r is Ok && final(self)@ == s2,
            spec_step(old(self)@) matches Err(f) ==> r == Err::<(), Fault>(f)
                && final(self)@ == old(self)@,
    {
        if self.pc >= MEM_SIZE {
            return Err(Fault::OutOfRangeMemoryAccess(self.pc));
        }
        let opcode: u8 = self.memory[self.pc];
        match opcode {
            0x00 => {
                // NOP
                self.pc += 1;
            },
            0x01 => {
                // LXI B
                let (lo, hi) = match self.read_imm16() {
                    Ok(v) => v,
                    Err(f) => {
                        return Err(f);
                    },
                };
                self.c = lo;
                self.b = hi;
                self.pc += 3;
            },
            0x05 => {
                // DCR B
                let res = self.floating_point_sub(self.b, 1);
                self.zsp_flags(res);
                self.b = res;
                self.pc += 1;
            },
            0x06 => {
                // MVI B
                let v = match self.read_imm8() {
                    Ok(v) => v,
                    Err(f) => {
                        return Err(f);
                    },
                };
                self.b = v;
                self.pc += 2;
            },
            0x09 => {
                // DAD B
                let addend = self.merge_addr_pair(self.c, self.b);
                self.dad_pair(addend);
                self.pc += 1;
            },
            0x0a => {
                // LDAX B
                let offset = self.merge_addr_pair(self.c, self.b);
                self.a = self.memory[offset as usize];
                self.pc += 1;
            },
            0x0d => {
                // DCR C
                let res = self.floating_point_sub(self.c, 1);
                self.zsp_flags(res);
                self.c = res;
                self.pc += 1;
            },
            0x0e => {
                // MVI C
                let v = match self.read_imm8() {
                    Ok(v) => v,
                    Err(f) => {
                        return Err(f);
                    },
                };
                self.c = v;
                self.pc += 2;
            },
            0x0f => {
                // RRC
                let x = self.a;
                self.a = ((x & 1) << 7) | (x >> 1);
                self.condition_codes.cy = if x & 1 == 1 {
                    1
                } else {
                    0
                };
                self.pc += 1;
            },
            0x11 => {
                // LXI D
                let (lo, hi) = match self.read_imm16() {
                    Ok(v) => v,
                    Err(f) => {
                        return Err(f);
                    },
                };
                self.e = lo;
                self.d = hi;
                self.pc += 3;
            },
            0x13 => {
                // INX D
                self.e = self.floating_point_add(self.e, 1);
                if self.e == 0 {
                    self.d = self.floating_point_add(self.d, 1);
                }
                self.pc += 1;
            },
            0x19 => {
                // DAD D
                let addend = self.merge_addr_pair(self.e, self.d);
                self.dad_pair(addend);
                self.pc += 1;
            },
            0x1a => {
                // LDAX D
                let offset = self.merge_addr_pair(self.e, self.d);
                self.a = self.memory[offset as usize];
                self.pc += 1;
            },
            0x21 => {
                // LXI H
                let (lo, hi) = match self.read_imm16() {
                    Ok(v) => v,
                    Err(f) => {
                        return Err(f);
                    },
                };
                self.l = lo;
                self.h = hi;
                self.pc += 3;
            },
            0x23 => {
                // INX H
                self.l = self.floating_point_add(self.l, 1);
                if self.l == 0 {
                    self.h = self.floating_point_add(self.h, 1);
                }
                self.pc += 1;
            },
            0x26 => {
                // MVI H
                let v = match self.read_imm8() {
                    Ok(v) => v,
                    Err(f) => {
                        return Err(f);
                    },
                };
                self.h = v;
                self.pc += 2;
            },
            0x29 => {
                // DAD H
                let addend = self.merge_addr_pair(self.l, self.h);
                self.dad_pair(addend);
                self.pc += 1;
            },
            0x31 => {
                // LXI SP
                let (lo, hi) = match self.read_imm16() {
                    Ok(v) => v,
                    Err(f) => {
                        return Err(f);
                    },
                };
                self.sp = self.merge_addr_pair(lo, hi) as usize;
                self.pc += 3;
            },
            0x32 => {
                // STA
                let (lo, hi) = match self.read_imm16() {
                    Ok(v) => v,
                    Err(f) => {
                        return Err(f);
                    },
                };
                let offset = self.merge_addr_pair(lo, hi);
                self.memory[offset as usize] = self.a;
                self.pc += 3;
            },
            0x35 => {
                // DCR M
                let v = self.read_from_hl();
                let res = self.floating_point_sub(v, 1);
                self.zsp_flags(res);
                self.write_to_hl(res);
                self.pc += 1;
            },
            0x36 => {
                // MVI M
                let v = match self.read_imm8() {
                    Ok(v) => v,
                    Err(f) => {
                        return Err(f);
                    },
                };
                self.write_to_hl(v);
                self.pc += 2;
            },
            0x3a => {
                // LDA
                let (lo, hi) = match self.read_imm16() {
                    Ok(v) => v,
                    Err(f) => {
                        return Err(f);
                    },
                };
                let offset = self.merge_addr_pair(lo, hi);
                self.a = self.memory[offset as usize];
                self.pc += 3;
            },
            0x3e => {
                // MVI A
                let v = match self.read_imm8() {
                    Ok(v) => v,
                    Err(f) => {
                        return Err(f);
                    },
                };
                self.a = v;
                self.pc += 2;
            },
            0x56 => {
                // MOV D,M
                self.d = self.read_from_hl();
                self.pc += 1;
            },
            0x5e => {
                // MOV E,M
                self.e = self.read_from_hl();
                self.pc += 1;
            },
            0x66 => {
                // MOV H,M
                self.h = self.read_from_hl();
                self.pc += 1;
            },
            0x6f => {
                // MOV L,A
                self.l = self.a;
                self.pc += 1;
            },
            0x77 => {
                // MOV M,A
                let a = self.a;
                self.write_to_hl(a);
                self.pc += 1;
            },
            0x7a => {
                // MOV A,D
                self.a = self.d;
                self.pc += 1;
            },
            0x7b => {
                // MOV A,E
                self.a = self.e;
                self.pc += 1;
            },
            0x7c => {
                // MOV A,H
                self.a = self.h;
                self.pc += 1;
            },
            0x7e => {
                // MOV A,M
                self.a = self.read_from_hl();
                self.pc += 1;
            },
            0xa7 => {
                // ANA A
                let x = self.a;
                proof {
                    assert((x & x) == x) by (bit_vector);
                }
                self.a = self.a & self.a;
                self.logic_flags_a();
                self.pc += 1;
            },
            0xaf => {
                // XRA A
                let x = self.a;
                proof {
                    assert((x ^ x) == 0) by (bit_vector);
                }
                self.a = self.a ^ self.a;
                self.logic_flags_a();
                self.pc += 1;
            },
            0xc1 => {
                // POP B
                let (lo, hi) = match self.pop_stack() {
                    Ok(v) => v,
                    Err(f) => {
                        return Err(f);
                    },
                };
                self.c = lo;
                self.b = hi;
                self.pc += 1;
            },
            0xc2 => {
                // JNZ
                if self.condition_codes.z == 0 {
                    let (lo, hi) = match self.read_imm16() {
                        Ok(v) => v,
                        Err(f) => {
                            return Err(f);
                        },
                    };
                    self.pc = self.merge_addr_pair(lo, hi) as usize;
                } else {
                    self.pc += 3;
                }
            },
            0xc3 => {
                // JMP
                let (lo, hi) = match self.read_imm16() {
                    Ok(v) => v,
                    Err(f) => {
                        return Err(f);
                    },
                };
                self.pc = self.merge_addr_pair(lo, hi) as usize;
            },
            0xc5 => {
                // PUSH B
                let (hi, lo) = (self.b, self.c);
                match self.push_stack(hi, lo) {
                    Ok(()) => {},
                    Err(f) => {
                        return Err(f);
                    },
                }
                self.pc += 1;
            },
            0xc6 => {
                // ADI
                let v = match self.read_imm8() {
                    Ok(v) => v,
                    Err(f) => {
                        return Err(f);
                    },
                };
                let sum: u16 = self.a as u16 + v as u16;
                let res: u8 = (sum % 256) as u8;
                self.zsp_flags(res);
                self.condition_codes.cy = if sum > 0xff {
                    1
                } else {
                    0
                };
                self.a = res;
                self.pc += 2;
            },
            0xc8 => {
                // RZ
                if self.condition_codes.z == 1 {
                    let (lo, hi) = match self.pop_stack() {
                        Ok(v) => v,
                        Err(f) => {
                            return Err(f);
                        },
                    };
                    self.pc = self.merge_addr_pair(lo, hi) as usize;
                } else {
                    self.pc += 1;
                }
            },
            0xc9 => {
                // RET
                let (lo, hi) = match self.pop_stack() {
                    Ok(v) => v,
                    Err(f) => {
                        return Err(f);
                    },
                };
                self.pc = self.merge_addr_pair(lo, hi) as usize;
            },
            0xca => {
                // JZ
                if self.condition_codes.z == 1 {
                    let (lo, hi) = match self.read_imm16() {
                        Ok(v) => v,
                        Err(f) => {
                            return Err(f);
                        },
                    };
                    self.pc = self.merge_addr_pair(lo, hi) as usize;
                } else {
                    self.pc += 3;
                }
            },
            0xcd => {
                // CALL
                let (lo, hi) = match self.read_imm16() {
                    Ok(v) => v,
                    Err(f) => {
                        return Err(f);
                    },
                };
                let ret: usize = (self.pc + 3) % 0x10000;
                match self.push_stack((ret / 256) as u8, (ret % 256) as u8) {
                    Ok(()) => {},
                    Err(f) => {
                        return Err(f);
                    },
                }
                self.pc = self.merge_addr_pair(lo, hi) as usize;
            },
            0xd1 => {
                // POP D
                let (lo, hi) = match self.pop_stack() {
                    Ok(v) => v,
                    Err(f) => {
                        return Err(f);
                    },
                };
                self.e = lo;
                self.d = hi;
                self.pc += 1;
            },
            0xd3 => {
                // OUT: the operand byte is consumed and no device effect
                // takes place.
                match self.read_imm8() {
                    Ok(_) => {},
                    Err(f) => {
                        return Err(f);
                    },
                }
                self.pc += 2;
            },
            0xd5 => {
                // PUSH D
                let (hi, lo) = (self.d, self.e);
                match self.push_stack(hi, lo) {
                    Ok(()) => {},
                    Err(f) => {
                        return Err(f);
                    },
                }
                self.pc += 1;
            },
            0xda => {
                // JC
                if self.condition_codes.cy != 0 {
                    let (lo, hi) = match self.read_imm16() {
                        Ok(v) => v,
                        Err(f) => {
                            return Err(f);
                        },
                    };
                    self.pc = self.merge_addr_pair(lo, hi) as usize;
                } else {
                    self.pc += 3;
                }
            },
            0xdb => {
                // IN: the port byte is consumed and every modeled port
                // reads as the fixed constant zero.
                match self.read_imm8() {
                    Ok(_) => {},
                    Err(f) => {
                        return Err(f);
                    },
                }
                self.a = 0;
                self.pc += 2;
            },
            0xe1 => {
                // POP H
                let (lo, hi) = match self.pop_stack() {
                    Ok(v) => v,
                    Err(f) => {
                        return Err(f);
                    },
                };
                self.l = lo;
                self.h = hi;
                self.pc += 1;
            },
            0xe5 => {
                // PUSH H
                let (hi, lo) = (self.h, self.l);
                match self.push_stack(hi, lo) {
                    Ok(()) => {},
                    Err(f) => {
                        return Err(f);
                    },
                }
                self.pc += 1;
            },
            0xe6 => {
                // ANI
                let v = match self.read_imm8() {
                    Ok(v) => v,
                    Err(f) => {
                        return Err(f);
                    },
                };
                self.a = self.a & v;
                self.logic_flags_a();
                self.pc += 2;
            },
            0xeb => {
                // XCHG
                let d = self.d;
                let e = self.e;
                self.d = self.h;
                self.e = self.l;
                self.h = d;
                self.l = e;
                self.pc += 1;
            },
            0xf1 => {
                // POP PSW
                let (psw, a) = match self.pop_stack() {
                    Ok(v) => v,
                    Err(f) => {
                        return Err(f);
                    },
                };
                self.a = a;
                self.condition_codes.z = if psw & 0x01 == 0x01 {
                    1
                } else {
                    0
                };
                self.condition_codes.s = if psw & 0x02 == 0x02 {
                    1
                } else {
                    0
                };
                self.condition_codes.p = if psw & 0x04 == 0x04 {
                    1
                } else {
                    0
                };
                self.condition_codes.cy = if psw & 0x08 == 0x08 {
                    1
                } else {
                    0
                };
                self.condition_codes.ac = if psw & 0x10 == 0x10 {
                    1
                } else {
                    0
                };
                self.pc += 1;
            },
            0xf5 => {
                // PUSH PSW
                let psw: u8 = self.condition_codes.z | (self.condition_codes.s << 1)
                    | (self.condition_codes.p << 2) | (self.condition_codes.cy << 3)
                    | (self.condition_codes.ac << 4);
                let a = self.a;
                match self.push_stack(a, psw) {
                    Ok(()) => {},
                    Err(f) => {
                        return Err(f);
                    },
                }
                self.pc += 1;
            },
            0xfb => {
                // EI
                self.int_enable = 1;
                self.pc += 1;
            },
            0xfe => {
                // CPI
                let v = match self.read_imm8() {
                    Ok(v) => v,
                    Err(f) => {
                        return Err(f);
                    },
                };
                let res = self.floating_point_sub(self.a, v);
                self.zsp_flags(res);
                self.condition_codes.cy = if self.a < v {
                    1
                } else {
                    0
                };
                self.pc += 2;
            },
            _ => {
                return Err(self.unimplemented_instruction(opcode));
            },
        }
        Ok(())
    }

    /// Delivers an interrupt: pushes the sixteen-bit program counter with
    /// the same discipline as a call, jumps to eight times the vector
    /// number, and disables interrupts until the program re-enables them.
    pub fn generate_interrupt(&mut self, interrupt_num: i32) -> (r: Result<(), Fault>)
        requires
            old(self).wf(),
            0 <= interrupt_num < 0x2000,
        ensures
            final(self).wf(),
            spec_interrupt(old(self)@, interrupt_num) matches Ok(s2) ==> r is Ok
                && final(self)@ == s2,
            spec_interrupt(old(self)@, interrupt_num) matches Err(f) ==> r == Err::<(), Fault>(f)
                && final(self)@ == old(self)@,
    {
        let ret: usize = self.pc % 0x10000;
        match self.push_stack((ret / 256) as u8, (ret % 256) as u8) {
            Ok(()) => {
                self.pc = 8 * (interrupt_num as usize);
                self.int_enable = 0;
                Ok(())
            },
            Err(f) => Err(f),
        }
    }

    /// The fault for an opcode byte that has no handler in the dispatch
    /// table.
    pub fn unimplemented_instruction(&self, opcode: u8) -> (r: Fault)
        ensures
            r == Fault::UnimplementedOpcode(opcode),
    {
        Fault::UnimplementedOpcode(opcode)
    }

    /// The debug snapshot for an external renderer: every register as
    /// two-digit, the stack pointer and program counter as four-digit,
    /// zero-padded lowercase hexadecimal, in a fixed field order.
    pub fn snapshot(&self) -> (r: String)
        ensures
            r@ == spec_snapshot(self@),
    {
        let mut out = "Vm {\n\t a: ".to_owned();
        out.append(crate::hex::format(self.a).as_str());
        out.append("\n\t b: ");
        out.append(crate::hex::format(self.b).as_str());
        out.append("\n\t c: ");
        out.append(crate::hex::format(self.c).as_str());
        out.append("\n\t d: ");
        out.append(crate::hex::format(self.d).as_str());
        out.append("\n\t e: ");
        out.append(crate::hex::format(self.e).as_str());
        out.append("\n\t h: ");
        out.append(crate::hex::format(self.h).as_str());
        out.append("\n\t l: ");
        out.append(crate::hex::format(self.l).as_str());
        out.append("\n\t sp: ");
        out.append(format_usize(self.sp).as_str());
        out.append("\n\t pc: ");
        out.append(format_usize(self.pc).as_str());
        out.append("\n\t int_enable: ");
        out.append(crate::hex::format(self.int_enable).as_str());
        out.append("\n\t condition_codes:\n\t ConditionCodes { z: ");
        out.append(crate::hex::format(self.condition_codes.z).as_str());
        out.append(", s: ");
        out.append(crate::hex::format(self.condition_codes.s).as_str());
        out.append(", p: ");
        out.append(crate::hex::format(self.condition_codes.p).as_str());
        out.append(", cy: ");
        out.append(crate::hex::format(self.condition_codes.cy).as_str());
        out.append(", ac: ");
        out.append(crate::hex::format(self.condition_codes.ac).as_str());
        out.append(", pad: ");
        out.append(crate::hex::format(self.condition_codes.pad).as_str());
        out.append(" }\n }");
        out
    }

    /// One trace line: the program counter and the opcode byte it
    /// addresses, both in zero-padded lowercase hexadecimal.
    pub fn debug_line(&self) -> (r: String)
        requires
            self.wf(),
            self.pc < MEM_SIZE,
        ensures
            r@ == spec_debug_line(self@),
    {
        let mut out = format_usize(self.pc);
        out.append(" => ");
        out.append(crate::hex::format(self.memory[self.pc]).as_str());
        out
    }
}

/// The text of the debug snapshot: field order and width are part of the
/// renderer's contract.
pub open spec fn spec_snapshot(s: VmState) -> Seq<char> {
    "Vm {\n\t a: "@ + spec_hex2(s.a) + "\n\t b: "@ + spec_hex2(s.b) + "\n\t c: "@ + spec_hex2(s.c)
        + "\n\t d: "@ + spec_hex2(s.d) + "\n\t e: "@ + spec_hex2(s.e) + "\n\t h: "@ + spec_hex2(
        s.h,
    ) + "\n\t l: "@ + spec_hex2(s.l) + "\n\t sp: "@ + spec_hex4(s.sp as int) + "\n\t pc: "@
        + spec_hex4(s.pc as int) + "\n\t int_enable: "@ + spec_hex2(s.int_enable)
        + "\n\t condition_codes:\n\t ConditionCodes { z: "@ + spec_hex2(s.flags.z) + ", s: "@
        + spec_hex2(s.flags.s) + ", p: "@ + spec_hex2(s.flags.p) + ", cy: "@ + spec_hex2(s.flags.cy)
        + ", ac: "@ + spec_hex2(s.flags.ac) + ", pad: "@ + spec_hex2(s.flags.pad) + " }\n }"@
}

/// The text of one trace line: program counter, an arrow, and the opcode
/// byte it addresses.
pub open spec fn spec_debug_line(s: VmState) -> Seq<char> {
    spec_hex4(s.pc as int) + " => "@ + spec_hex2(s.mem[s.pc as int])
}

/// The single bit of `v` at position `k`, as 0 or 1.
fn bit_of(v: u8, k: u8) -> (r: u8)
    requires
        k < 8,
    ensures
        r == ((v >> k) & 1),
        r <= 1,
{
    proof {
        assert(((v >> k) & 1) <= 1) by (bit_vector);
    }
    (v >> k) & 1
}

} // verus!
