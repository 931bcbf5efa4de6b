//! Tests of hexadecimal rendering, the debug snapshot, and fault reports.

use emu8080::fault::Fault;
use emu8080::hex::format_usize;
use emu8080::vm::Vm;

#[test]
fn format_renders_two_zero_padded_digits() {
    assert_eq!(emu8080::hex::format(0x00), "00");
    assert_eq!(emu8080::hex::format(0x0f), "0f");
    assert_eq!(emu8080::hex::format(0xab), "ab");
    assert_eq!(emu8080::hex::format(0xff), "ff");
}

#[test]
fn format_usize_renders_at_least_four_digits() {
    assert_eq!(format_usize(0x0000), "0000");
    assert_eq!(format_usize(0x0005), "0005");
    assert_eq!(format_usize(0x00ab), "00ab");
    assert_eq!(format_usize(0x0abc), "0abc");
    assert_eq!(format_usize(0x1234), "1234");
    assert_eq!(format_usize(0xffff), "ffff");
}

#[test]
fn format_usize_keeps_all_digits_of_a_wider_value() {
    assert_eq!(format_usize(0x10000), "10000");
    assert_eq!(format_usize(70000), "11170");
}

#[test]
fn snapshot_of_a_fresh_machine_is_all_zeros() {
    let vm = Vm::new();
    assert_eq!(
        vm.snapshot(),
        "Vm {\n\t a: 00\n\t b: 00\n\t c: 00\n\t d: 00\n\t e: 00\n\t h: 00\n\t l: 00\n\t sp: 0000\n\t pc: 0000\n\t int_enable: 00\n\t condition_codes:\n\t ConditionCodes { z: 00, s: 00, p: 00, cy: 00, ac: 00, pad: 00 }\n }"
    );
}

#[test]
fn snapshot_renders_every_field_in_hex() {
    let mut vm = Vm::new();
    vm.a = 0x1f;
    vm.b = 0x02;
    vm.c = 0x03;
    vm.d = 0x04;
    vm.e = 0x05;
    vm.h = 0x06;
    vm.l = 0x07;
    vm.sp = 0x23f0;
    vm.pc = 0x01a3;
    vm.int_enable = 1;
    vm.condition_codes.z = 1;
    vm.condition_codes.cy = 1;
    assert_eq!(
        vm.snapshot(),
        "Vm {\n\t a: 1f\n\t b: 02\n\t c: 03\n\t d: 04\n\t e: 05\n\t h: 06\n\t l: 07\n\t sp: 23f0\n\t pc: 01a3\n\t int_enable: 01\n\t condition_codes:\n\t ConditionCodes { z: 01, s: 00, p: 00, cy: 01, ac: 00, pad: 00 }\n }"
    );
}

#[test]
fn debug_line_shows_the_counter_and_the_opcode() {
    let mut vm = Vm::new();
    vm.pc = 0x01a3;
    vm.memory[0x01a3] = 0xc3;
    assert_eq!(vm.debug_line(), "01a3 => c3");
    let vm = Vm::new();
    assert_eq!(vm.debug_line(), "0000 => 00");
}

#[test]
fn fault_reports_name_the_offending_byte_or_address() {
    assert_eq!(
        Fault::UnimplementedOpcode(0x08).describe(),
        "Reached unimplemented opcode: 0x08"
    );
    assert_eq!(
        Fault::OutOfRangeMemoryAccess(70000).describe(),
        "Out-of-range memory access: 0x11170"
    );
    assert_eq!(
        Fault::OutOfRangeMemoryAccess(0xfffe).describe(),
        "Out-of-range memory access: 0xfffe"
    );
}
