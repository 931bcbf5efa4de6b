//! Tests of the fetch/decode/execute engine.

use emu8080::fault::Fault;
use emu8080::vm::Vm;

fn vm_with_rom(rom: Vec<u8>) -> Vm {
    let mut vm = Vm::new();
    vm.load_rom(rom);
    vm
}

#[test]
fn wrapping_add_wraps_at_the_top() {
    let vm = Vm::new();
    assert_eq!(vm.floating_point_add(0xff, 1), 0x00);
    assert_eq!(vm.floating_point_add(0x80, 0x80), 0x00);
    assert_eq!(vm.floating_point_add(0x7f, 1), 0x80);
}

#[test]
fn wrapping_sub_wraps_at_the_bottom() {
    let vm = Vm::new();
    assert_eq!(vm.floating_point_sub(0x00, 1), 0xff);
    assert_eq!(vm.floating_point_sub(0x10, 0x20), 0xf0);
    assert_eq!(vm.floating_point_sub(0x10, 0x10), 0x00);
}

#[test]
fn parity_counts_set_bits() {
    let mut vm = Vm::new();
    assert_eq!(vm.parity(0x00), 1);
    assert_eq!(vm.parity(0x01), 0);
    assert_eq!(vm.parity(0x03), 1);
    assert_eq!(vm.parity(0x07), 0);
    assert_eq!(vm.parity(0xff), 1);
    assert_eq!(vm.parity(0x80), 0);
}

#[test]
fn mvi_a_loads_the_immediate() {
    // MVI A,5 then one step: accumulator 5, program counter 2.
    let mut vm = vm_with_rom(vec![0x3e, 0x05]);
    assert_eq!(vm.run_current_opcode(), Ok(()));
    assert_eq!(vm.a, 5);
    assert_eq!(vm.pc, 2);
}

#[test]
fn unmapped_opcode_reports_the_byte_and_changes_nothing() {
    let mut vm = vm_with_rom(vec![0x08]);
    vm.b = 0x42;
    assert_eq!(vm.run_current_opcode(), Err(Fault::UnimplementedOpcode(0x08)));
    assert_eq!(vm.pc, 0);
    assert_eq!(vm.b, 0x42);
    assert_eq!(vm.sp, 0);
}

#[test]
fn unimplemented_instruction_carries_the_opcode() {
    let vm = Vm::new();
    assert_eq!(vm.unimplemented_instruction(0xfd), Fault::UnimplementedOpcode(0xfd));
}

#[test]
fn fetch_outside_memory_is_a_fault() {
    let mut vm = Vm::new();
    vm.pc = 70000;
    assert_eq!(
        vm.run_current_opcode(),
        Err(Fault::OutOfRangeMemoryAccess(70000))
    );
    assert_eq!(vm.pc, 70000);
}

#[test]
fn operand_read_outside_memory_is_a_fault() {
    let mut vm = Vm::new();
    vm.memory[65535] = 0x3e; // MVI A at the last byte: its operand is out of range
    vm.pc = 65535;
    assert_eq!(
        vm.run_current_opcode(),
        Err(Fault::OutOfRangeMemoryAccess(65536))
    );
    assert_eq!(vm.pc, 65535);
    assert_eq!(vm.a, 0);
}

#[test]
fn push_below_the_stack_is_a_fault() {
    let mut vm = vm_with_rom(vec![0xc5]);
    vm.sp = 1;
    assert_eq!(vm.run_current_opcode(), Err(Fault::OutOfRangeMemoryAccess(1)));
    assert_eq!(vm.sp, 1);
    assert_eq!(vm.pc, 0);
}

#[test]
fn pop_beyond_memory_is_a_fault() {
    let mut vm = vm_with_rom(vec![0xc1]);
    vm.sp = 65535;
    assert_eq!(
        vm.run_current_opcode(),
        Err(Fault::OutOfRangeMemoryAccess(65536))
    );
    assert_eq!(vm.sp, 65535);
}

#[test]
fn dcr_b_of_one_sets_zero_and_parity() {
    let mut vm = vm_with_rom(vec![0x05]);
    vm.b = 1;
    vm.run_current_opcode().unwrap();
    assert_eq!(vm.b, 0);
    assert_eq!(vm.condition_codes.z, 1);
    assert_eq!(vm.condition_codes.s, 0);
    assert_eq!(vm.condition_codes.p, 1);
    assert_eq!(vm.pc, 1);
}

#[test]
fn dcr_b_of_zero_wraps_and_sets_sign() {
    let mut vm = vm_with_rom(vec![0x05]);
    vm.b = 0;
    vm.condition_codes.cy = 1;
    vm.run_current_opcode().unwrap();
    assert_eq!(vm.b, 0xff);
    assert_eq!(vm.condition_codes.z, 0);
    assert_eq!(vm.condition_codes.s, 1);
    assert_eq!(vm.condition_codes.p, 1);
    // Carry persists across DCR.
    assert_eq!(vm.condition_codes.cy, 1);
}

#[test]
fn dcr_c_of_three_clears_parity() {
    let mut vm = vm_with_rom(vec![0x0d]);
    vm.c = 3;
    vm.run_current_opcode().unwrap();
    assert_eq!(vm.c, 2);
    assert_eq!(vm.condition_codes.z, 0);
    assert_eq!(vm.condition_codes.s, 0);
    assert_eq!(vm.condition_codes.p, 0);
}

#[test]
fn dcr_m_decrements_through_hl() {
    let mut vm = vm_with_rom(vec![0x35]);
    vm.h = 0x20;
    vm.l = 0x10;
    vm.memory[0x2010] = 5;
    vm.run_current_opcode().unwrap();
    assert_eq!(vm.memory[0x2010], 4);
    assert_eq!(vm.condition_codes.z, 0);
    assert_eq!(vm.condition_codes.p, 0);
    assert_eq!(vm.pc, 1);
}

#[test]
fn call_pushes_the_return_address_and_ret_restores_it() {
    // CALL at address 0: pushes 3 at [SP-2] low, [SP-1] high, SP drops by
    // two; the RET at the call target brings both back.
    let mut rom = vec![0u8; 17];
    rom[0] = 0xcd;
    rom[1] = 0x10;
    rom[2] = 0x00;
    rom[16] = 0xc9;
    let mut vm = vm_with_rom(rom);
    vm.sp = 0x2000;
    vm.run_current_opcode().unwrap();
    assert_eq!(vm.pc, 0x0010);
    assert_eq!(vm.sp, 0x1ffe);
    assert_eq!(vm.memory[0x1ffe], 0x03);
    assert_eq!(vm.memory[0x1fff], 0x00);
    vm.run_current_opcode().unwrap();
    assert_eq!(vm.pc, 0x0003);
    assert_eq!(vm.sp, 0x2000);
}

#[test]
fn push_then_pop_round_trips_the_bc_pair() {
    let mut vm = vm_with_rom(vec![0xc5, 0xc1]);
    vm.sp = 0x2000;
    vm.b = 0x12;
    vm.c = 0x34;
    vm.run_current_opcode().unwrap();
    assert_eq!(vm.sp, 0x1ffe);
    assert_eq!(vm.memory[0x1fff], 0x12);
    assert_eq!(vm.memory[0x1ffe], 0x34);
    vm.b = 0;
    vm.c = 0;
    vm.run_current_opcode().unwrap();
    assert_eq!(vm.b, 0x12);
    assert_eq!(vm.c, 0x34);
    assert_eq!(vm.sp, 0x2000);
    assert_eq!(vm.pc, 2);
}

#[test]
fn push_and_pop_move_the_de_and_hl_pairs() {
    let mut vm = vm_with_rom(vec![0xd5, 0xe1]);
    vm.sp = 0x2000;
    vm.d = 0xab;
    vm.e = 0xcd;
    vm.run_current_opcode().unwrap();
    vm.run_current_opcode().unwrap();
    assert_eq!(vm.h, 0xab);
    assert_eq!(vm.l, 0xcd);
    assert_eq!(vm.sp, 0x2000);
}

#[test]
fn xra_a_clears_the_accumulator_and_the_carries() {
    let mut vm = vm_with_rom(vec![0xaf]);
    vm.a = 0x5a;
    vm.condition_codes.cy = 1;
    vm.condition_codes.ac = 1;
    vm.run_current_opcode().unwrap();
    assert_eq!(vm.a, 0);
    assert_eq!(vm.condition_codes.z, 1);
    assert_eq!(vm.condition_codes.cy, 0);
    assert_eq!(vm.condition_codes.ac, 0);
    assert_eq!(vm.condition_codes.s, 0);
    assert_eq!(vm.condition_codes.p, 1);
}

#[test]
fn ana_a_keeps_the_accumulator_and_sets_flags_from_it() {
    let mut vm = vm_with_rom(vec![0xa7]);
    vm.a = 0x81;
    vm.condition_codes.cy = 1;
    vm.run_current_opcode().unwrap();
    assert_eq!(vm.a, 0x81);
    assert_eq!(vm.condition_codes.z, 0);
    assert_eq!(vm.condition_codes.s, 1);
    assert_eq!(vm.condition_codes.p, 1);
    assert_eq!(vm.condition_codes.cy, 0);
}

#[test]
fn ani_masks_the_accumulator() {
    let mut vm = vm_with_rom(vec![0xe6, 0x0f]);
    vm.a = 0x3c;
    vm.run_current_opcode().unwrap();
    assert_eq!(vm.a, 0x0c);
    assert_eq!(vm.condition_codes.cy, 0);
    assert_eq!(vm.pc, 2);
}

#[test]
fn adi_adds_with_carry_out() {
    let mut vm = vm_with_rom(vec![0xc6, 0x20]);
    vm.a = 0xf0;
    vm.run_current_opcode().unwrap();
    assert_eq!(vm.a, 0x10);
    assert_eq!(vm.condition_codes.cy, 1);
    assert_eq!(vm.condition_codes.z, 0);
    assert_eq!(vm.condition_codes.s, 0);
    assert_eq!(vm.condition_codes.p, 0);
    assert_eq!(vm.pc, 2);
}

#[test]
fn adi_without_overflow_clears_carry() {
    let mut vm = vm_with_rom(vec![0xc6, 0x05]);
    vm.a = 0x10;
    vm.condition_codes.cy = 1;
    vm.run_current_opcode().unwrap();
    assert_eq!(vm.a, 0x15);
    assert_eq!(vm.condition_codes.cy, 0);
}

#[test]
fn cpi_compares_without_storing() {
    let mut vm = vm_with_rom(vec![0xfe, 0x06]);
    vm.a = 5;
    vm.run_current_opcode().unwrap();
    assert_eq!(vm.a, 5);
    assert_eq!(vm.condition_codes.cy, 1);
    assert_eq!(vm.condition_codes.z, 0);
    assert_eq!(vm.condition_codes.s, 1);
    assert_eq!(vm.pc, 2);
}

#[test]
fn cpi_of_equal_values_sets_zero_and_clears_carry() {
    let mut vm = vm_with_rom(vec![0xfe, 0x05]);
    vm.a = 5;
    vm.run_current_opcode().unwrap();
    assert_eq!(vm.condition_codes.z, 1);
    assert_eq!(vm.condition_codes.cy, 0);
}

#[test]
fn dad_d_sets_carry_on_sixteen_bit_overflow() {
    let mut vm = vm_with_rom(vec![0x19]);
    vm.h = 0xff;
    vm.l = 0xff;
    vm.d = 0x00;
    vm.e = 0x01;
    vm.run_current_opcode().unwrap();
    assert_eq!(vm.h, 0x00);
    assert_eq!(vm.l, 0x00);
    assert_eq!(vm.condition_codes.cy, 1);
}

#[test]
fn dad_h_doubles_the_pair() {
    let mut vm = vm_with_rom(vec![0x29]);
    vm.h = 0x12;
    vm.l = 0x34;
    vm.run_current_opcode().unwrap();
    assert_eq!(vm.h, 0x24);
    assert_eq!(vm.l, 0x68);
    assert_eq!(vm.condition_codes.cy, 0);
}

#[test]
fn dad_b_adds_the_bc_pair() {
    let mut vm = vm_with_rom(vec![0x09]);
    vm.h = 0x10;
    vm.l = 0x00;
    vm.b = 0x01;
    vm.c = 0x02;
    vm.run_current_opcode().unwrap();
    assert_eq!(vm.h, 0x11);
    assert_eq!(vm.l, 0x02);
    assert_eq!(vm.condition_codes.cy, 0);
}

#[test]
fn rrc_rotates_the_low_bit_into_bit_seven_and_carry() {
    let mut vm = vm_with_rom(vec![0x0f]);
    vm.a = 0x01;
    vm.run_current_opcode().unwrap();
    assert_eq!(vm.a, 0x80);
    assert_eq!(vm.condition_codes.cy, 1);
}

#[test]
fn rrc_of_an_even_value_clears_carry() {
    let mut vm = vm_with_rom(vec![0x0f]);
    vm.a = 0x02;
    vm.run_current_opcode().unwrap();
    assert_eq!(vm.a, 0x01);
    assert_eq!(vm.condition_codes.cy, 0);
}

#[test]
fn inx_h_carries_into_the_high_byte() {
    let mut vm = vm_with_rom(vec![0x23]);
    vm.h = 0x12;
    vm.l = 0xff;
    vm.run_current_opcode().unwrap();
    assert_eq!(vm.h, 0x13);
    assert_eq!(vm.l, 0x00);
}

#[test]
fn inx_h_wraps_at_the_top_of_the_pair() {
    let mut vm = vm_with_rom(vec![0x23]);
    vm.h = 0xff;
    vm.l = 0xff;
    vm.run_current_opcode().unwrap();
    assert_eq!(vm.h, 0x00);
    assert_eq!(vm.l, 0x00);
}

#[test]
fn inx_d_increments_the_low_byte() {
    let mut vm = vm_with_rom(vec![0x13]);
    vm.d = 0x01;
    vm.e = 0x02;
    vm.run_current_opcode().unwrap();
    assert_eq!(vm.d, 0x01);
    assert_eq!(vm.e, 0x03);
}

#[test]
fn lxi_loads_the_pairs_little_endian() {
    let mut vm = vm_with_rom(vec![0x01, 0x34, 0x12, 0x11, 0x78, 0x56, 0x21, 0xbc, 0x9a, 0x31, 0xf0, 0x23]);
    vm.run_current_opcode().unwrap();
    assert_eq!((vm.b, vm.c), (0x12, 0x34));
    vm.run_current_opcode().unwrap();
    assert_eq!((vm.d, vm.e), (0x56, 0x78));
    vm.run_current_opcode().unwrap();
    assert_eq!((vm.h, vm.l), (0x9a, 0xbc));
    vm.run_current_opcode().unwrap();
    assert_eq!(vm.sp, 0x23f0);
    assert_eq!(vm.pc, 12);
}

#[test]
fn mvi_fills_single_registers() {
    let mut vm = vm_with_rom(vec![0x06, 0x11, 0x0e, 0x22, 0x26, 0x33]);
    vm.run_current_opcode().unwrap();
    vm.run_current_opcode().unwrap();
    vm.run_current_opcode().unwrap();
    assert_eq!((vm.b, vm.c, vm.h), (0x11, 0x22, 0x33));
    assert_eq!(vm.pc, 6);
}

#[test]
fn sta_and_lda_move_the_accumulator_through_memory() {
    let mut vm = vm_with_rom(vec![0x32, 0x00, 0x30, 0xaf, 0x3a, 0x00, 0x30]);
    vm.a = 0x99;
    vm.run_current_opcode().unwrap();
    assert_eq!(vm.memory[0x3000], 0x99);
    vm.run_current_opcode().unwrap();
    assert_eq!(vm.a, 0);
    vm.run_current_opcode().unwrap();
    assert_eq!(vm.a, 0x99);
    assert_eq!(vm.pc, 7);
}

#[test]
fn ldax_reads_through_the_bc_and_de_pairs() {
    let mut vm = vm_with_rom(vec![0x0a, 0x1a]);
    vm.b = 0x20;
    vm.c = 0x01;
    vm.d = 0x20;
    vm.e = 0x02;
    vm.memory[0x2001] = 0x77;
    vm.memory[0x2002] = 0x88;
    vm.run_current_opcode().unwrap();
    assert_eq!(vm.a, 0x77);
    vm.run_current_opcode().unwrap();
    assert_eq!(vm.a, 0x88);
}

#[test]
fn mov_moves_between_registers_and_memory() {
    let mut vm = vm_with_rom(vec![0x77, 0x7e, 0x6f, 0x7c, 0x7a, 0x7b]);
    vm.h = 0x20;
    vm.l = 0x10;
    vm.a = 0x42;
    vm.run_current_opcode().unwrap(); // MOV M,A
    assert_eq!(vm.memory[0x2010], 0x42);
    vm.a = 0;
    vm.run_current_opcode().unwrap(); // MOV A,M
    assert_eq!(vm.a, 0x42);
    vm.run_current_opcode().unwrap(); // MOV L,A
    assert_eq!(vm.l, 0x42);
    vm.run_current_opcode().unwrap(); // MOV A,H
    assert_eq!(vm.a, 0x20);
    vm.d = 0x0d;
    vm.run_current_opcode().unwrap(); // MOV A,D
    assert_eq!(vm.a, 0x0d);
    vm.e = 0x0e;
    vm.run_current_opcode().unwrap(); // MOV A,E
    assert_eq!(vm.a, 0x0e);
}

#[test]
fn mov_loads_registers_from_hl_memory() {
    let mut vm = vm_with_rom(vec![0x56, 0x5e, 0x66]);
    vm.h = 0x20;
    vm.l = 0x00;
    vm.memory[0x2000] = 0xd1;
    vm.run_current_opcode().unwrap(); // MOV D,M
    assert_eq!(vm.d, 0xd1);
    vm.run_current_opcode().unwrap(); // MOV E,M
    assert_eq!(vm.e, 0xd1);
    vm.run_current_opcode().unwrap(); // MOV H,M
    assert_eq!(vm.h, 0xd1);
}

#[test]
fn mvi_m_writes_the_immediate_through_hl() {
    let mut vm = vm_with_rom(vec![0x36, 0x5c]);
    vm.h = 0x21;
    vm.l = 0x00;
    vm.run_current_opcode().unwrap();
    assert_eq!(vm.memory[0x2100], 0x5c);
    assert_eq!(vm.pc, 2);
}

#[test]
fn read_and_write_through_hl_round_trip() {
    let mut vm = Vm::new();
    vm.h = 0x24;
    vm.l = 0x68;
    vm.write_to_hl(0xee);
    assert_eq!(vm.memory[0x2468], 0xee);
    assert_eq!(vm.read_from_hl(), 0xee);
}

#[test]
fn merge_addr_pair_is_high_then_low() {
    let vm = Vm::new();
    assert_eq!(vm.merge_addr_pair(0x34, 0x12), 0x1234);
    assert_eq!(vm.merge_addr_pair(0x00, 0xff), 0xff00);
}

#[test]
fn xchg_swaps_de_with_hl() {
    let mut vm = vm_with_rom(vec![0xeb]);
    vm.d = 1;
    vm.e = 2;
    vm.h = 3;
    vm.l = 4;
    vm.run_current_opcode().unwrap();
    assert_eq!((vm.d, vm.e, vm.h, vm.l), (3, 4, 1, 2));
}

#[test]
fn jmp_sets_the_program_counter() {
    let mut vm = vm_with_rom(vec![0xc3, 0x00, 0x20]);
    vm.run_current_opcode().unwrap();
    assert_eq!(vm.pc, 0x2000);
}

#[test]
fn jnz_branches_only_while_zero_is_clear() {
    let mut vm = vm_with_rom(vec![0xc2, 0x00, 0x20]);
    vm.condition_codes.z = 0;
    vm.run_current_opcode().unwrap();
    assert_eq!(vm.pc, 0x2000);
    let mut vm = vm_with_rom(vec![0xc2, 0x00, 0x20]);
    vm.condition_codes.z = 1;
    vm.run_current_opcode().unwrap();
    assert_eq!(vm.pc, 3);
}

#[test]
fn jz_branches_only_while_zero_is_set() {
    let mut vm = vm_with_rom(vec![0xca, 0x00, 0x20]);
    vm.condition_codes.z = 1;
    vm.run_current_opcode().unwrap();
    assert_eq!(vm.pc, 0x2000);
    let mut vm = vm_with_rom(vec![0xca, 0x00, 0x20]);
    vm.condition_codes.z = 0;
    vm.run_current_opcode().unwrap();
    assert_eq!(vm.pc, 3);
}

#[test]
fn jc_branches_only_while_carry_is_set() {
    let mut vm = vm_with_rom(vec![0xda, 0x00, 0x20]);
    vm.condition_codes.cy = 1;
    vm.run_current_opcode().unwrap();
    assert_eq!(vm.pc, 0x2000);
    let mut vm = vm_with_rom(vec![0xda, 0x00, 0x20]);
    vm.condition_codes.cy = 0;
    vm.run_current_opcode().unwrap();
    assert_eq!(vm.pc, 3);
}

#[test]
fn rz_returns_only_while_zero_is_set() {
    let mut vm = vm_with_rom(vec![0xc8]);
    vm.sp = 0x1ffe;
    vm.memory[0x1ffe] = 0x10;
    vm.memory[0x1fff] = 0x00;
    vm.condition_codes.z = 1;
    vm.run_current_opcode().unwrap();
    assert_eq!(vm.pc, 0x0010);
    assert_eq!(vm.sp, 0x2000);
    let mut vm = vm_with_rom(vec![0xc8]);
    vm.sp = 0x1ffe;
    vm.condition_codes.z = 0;
    vm.run_current_opcode().unwrap();
    assert_eq!(vm.pc, 1);
    assert_eq!(vm.sp, 0x1ffe);
}

#[test]
fn push_psw_packs_the_flags_and_pop_psw_unpacks_them() {
    let mut vm = vm_with_rom(vec![0xf5, 0xf1]);
    vm.sp = 0x2000;
    vm.a = 0xab;
    vm.condition_codes.z = 1;
    vm.condition_codes.s = 0;
    vm.condition_codes.p = 1;
    vm.condition_codes.cy = 1;
    vm.condition_codes.ac = 0;
    vm.run_current_opcode().unwrap();
    // bit0=Z, bit1=S, bit2=P, bit3=CY, bit4=AC
    assert_eq!(vm.memory[0x1ffe], 0x0d);
    assert_eq!(vm.memory[0x1fff], 0xab);
    assert_eq!(vm.sp, 0x1ffe);
    vm.a = 0;
    vm.condition_codes.z = 0;
    vm.condition_codes.p = 0;
    vm.condition_codes.cy = 0;
    vm.run_current_opcode().unwrap();
    assert_eq!(vm.a, 0xab);
    assert_eq!(vm.condition_codes.z, 1);
    assert_eq!(vm.condition_codes.s, 0);
    assert_eq!(vm.condition_codes.p, 1);
    assert_eq!(vm.condition_codes.cy, 1);
    assert_eq!(vm.condition_codes.ac, 0);
    assert_eq!(vm.sp, 0x2000);
}

#[test]
fn pop_psw_reads_carry_from_bit_three() {
    let mut vm = vm_with_rom(vec![0xf1]);
    vm.sp = 0x1ffe;
    vm.memory[0x1ffe] = 0x08;
    vm.memory[0x1fff] = 0x00;
    vm.run_current_opcode().unwrap();
    assert_eq!(vm.condition_codes.cy, 1);
    assert_eq!(vm.condition_codes.z, 0);
    assert_eq!(vm.condition_codes.s, 0);
    assert_eq!(vm.condition_codes.p, 0);
    assert_eq!(vm.condition_codes.ac, 0);
}

#[test]
fn ei_sets_the_interrupt_enable_flag() {
    let mut vm = vm_with_rom(vec![0xfb]);
    vm.run_current_opcode().unwrap();
    assert_eq!(vm.int_enable, 1);
    assert_eq!(vm.pc, 1);
}

#[test]
fn in_reads_zero_from_a_modeled_port() {
    let mut vm = vm_with_rom(vec![0xdb, 0x01]);
    vm.a = 0xff;
    vm.run_current_opcode().unwrap();
    assert_eq!(vm.a, 0);
    assert_eq!(vm.pc, 2);
}

#[test]
fn out_consumes_its_operand_and_does_nothing_else() {
    let mut vm = vm_with_rom(vec![0xd3, 0x7f]);
    vm.a = 0x55;
    vm.run_current_opcode().unwrap();
    assert_eq!(vm.a, 0x55);
    assert_eq!(vm.pc, 2);
}

#[test]
fn nop_only_advances() {
    let mut vm = vm_with_rom(vec![0x00]);
    vm.run_current_opcode().unwrap();
    assert_eq!(vm.pc, 1);
    assert_eq!(vm.a, 0);
}

#[test]
fn new_machine_is_zeroed_with_full_memory() {
    let vm = Vm::new();
    assert_eq!(vm.memory.len(), 65536);
    assert_eq!(vm.memory[0], 0);
    assert_eq!(vm.memory[65535], 0);
    assert_eq!((vm.a, vm.b, vm.c, vm.d, vm.e, vm.h, vm.l), (0, 0, 0, 0, 0, 0, 0));
    assert_eq!((vm.sp, vm.pc), (0, 0));
    assert_eq!(vm.int_enable, 0);
    assert_eq!(vm.condition_codes.z, 0);
}

#[test]
fn memory_get_and_set_fault_outside_capacity() {
    let mut vm = Vm::new();
    assert_eq!(vm.mem_set(0x2400, 0x77), Ok(()));
    assert_eq!(vm.mem_get(0x2400), Ok(0x77));
    assert_eq!(vm.mem_get(65536), Err(Fault::OutOfRangeMemoryAccess(65536)));
    assert_eq!(
        vm.mem_set(70000, 1),
        Err(Fault::OutOfRangeMemoryAccess(70000))
    );
    assert_eq!(vm.memory[0x2400], 0x77);
}

#[test]
fn load_rom_copies_verbatim_and_keeps_the_rest() {
    let mut vm = Vm::new();
    vm.memory[3] = 0x99;
    vm.load_rom(vec![1, 2, 3]);
    assert_eq!(&vm.memory[0..3], &[1, 2, 3]);
    assert_eq!(vm.memory[3], 0x99);
    assert_eq!(vm.memory.len(), 65536);
}
