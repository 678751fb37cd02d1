use resona::cpu::{ControlEffect, Cpu, StepError};
use resona::isa::Instruction;
use resona::mem::Memory;

fn fresh(mem_size: usize) -> (Cpu, Memory) {
    (Cpu::new(), Memory::new(mem_size))
}

#[test]
fn writes_to_x0_are_discarded() {
    let (mut cpu, mut mem) = fresh(64);
    cpu.write(0, 12345);
    assert_eq!(cpu.regs[0], 0);

    cpu.regs[1] = 7;
    let r = cpu.step(Instruction::Addi { rd: 0, rs1: 1, imm: 1 }, &mut mem);
    assert_eq!(r, Ok(ControlEffect::Continue));
    assert_eq!(cpu.regs[0], 0);

    let r = cpu.step(Instruction::Lui { rd: 0, imm: 0xfffff000 }, &mut mem);
    assert_eq!(r, Ok(ControlEffect::Continue));
    assert_eq!(cpu.regs[0], 0);
}

#[test]
fn add_wraps_without_trap() {
    let (mut cpu, mut mem) = fresh(64);
    cpu.regs[1] = 0x7fffffff;
    cpu.regs[2] = 1;
    let r = cpu.step(Instruction::Add { rd: 3, rs1: 1, rs2: 2 }, &mut mem);
    assert_eq!(r, Ok(ControlEffect::Continue));
    assert_eq!(cpu.regs[3], 0x80000000);
}

#[test]
fn sub_or_and_xori_exact_values() {
    let (mut cpu, mut mem) = fresh(64);
    cpu.regs[1] = 0x0000_0005;
    cpu.regs[2] = 0x0000_000c;
    cpu.step(Instruction::Sub { rd: 3, rs1: 1, rs2: 2 }, &mut mem).unwrap();
    assert_eq!(cpu.regs[3], 5u32.wrapping_sub(12));
    cpu.step(Instruction::Or { rd: 4, rs1: 1, rs2: 2 }, &mut mem).unwrap();
    assert_eq!(cpu.regs[4], 0x5 | 0xc);
    cpu.step(Instruction::And { rd: 5, rs1: 1, rs2: 2 }, &mut mem).unwrap();
    assert_eq!(cpu.regs[5], 0x5 & 0xc);
    cpu.step(Instruction::Xori { rd: 6, rs1: 1, imm: -1 }, &mut mem).unwrap();
    assert_eq!(cpu.regs[6], !5u32);
}

#[test]
fn addi_negative_immediate_wraps() {
    let (mut cpu, mut mem) = fresh(64);
    cpu.regs[1] = 0;
    cpu.step(Instruction::Addi { rd: 2, rs1: 1, imm: -1 }, &mut mem).unwrap();
    assert_eq!(cpu.regs[2], 0xffffffff);
}

#[test]
fn store_then_load_roundtrip() {
    let (mut cpu, mut mem) = fresh(256);
    cpu.regs[1] = 100; // base
    cpu.regs[2] = 0xdeadbeef; // value
    let r = cpu.step(Instruction::Sw { rs1: 1, rs2: 2, imm: 8 }, &mut mem);
    assert_eq!(r, Ok(ControlEffect::Continue));
    let r = cpu.step(Instruction::Lw { rd: 3, rs1: 1, imm: 8 }, &mut mem);
    assert_eq!(r, Ok(ControlEffect::Continue));
    assert_eq!(cpu.regs[3], 0xdeadbeef);
}

#[test]
fn load_out_of_bounds_is_a_fault() {
    let (mut cpu, mut mem) = fresh(64);
    cpu.regs[1] = 61; // 61 + 4 > 64
    let r = cpu.step(Instruction::Lw { rd: 3, rs1: 1, imm: 0 }, &mut mem);
    assert_eq!(r, Err(StepError::MemOutOfBounds { addr: 61 }));
    // a negative offset wraps the effective address far out of range
    cpu.regs[1] = 0;
    let r = cpu.step(Instruction::Sw { rs1: 1, rs2: 2, imm: -4 }, &mut mem);
    assert_eq!(r, Err(StepError::MemOutOfBounds { addr: 0xfffffffc }));
}

#[test]
fn branch_effects() {
    let (mut cpu, mut mem) = fresh(64);
    cpu.pc = 40;
    cpu.regs[1] = 9;
    cpu.regs[2] = 9;
    // beq with equal operands redirects to pc + imm
    let r = cpu.step(Instruction::Beq { rs1: 1, rs2: 2, imm: -8 }, &mut mem);
    assert_eq!(r, Ok(ControlEffect::Redirect(32)));
    assert_eq!(cpu.pc, 40); // the execution unit never touches pc itself
    // bne with equal operands falls through
    let r = cpu.step(Instruction::Bne { rs1: 1, rs2: 2, imm: -8 }, &mut mem);
    assert_eq!(r, Ok(ControlEffect::Continue));
    // bne with different operands redirects
    cpu.regs[2] = 10;
    let r = cpu.step(Instruction::Bne { rs1: 1, rs2: 2, imm: 8 }, &mut mem);
    assert_eq!(r, Ok(ControlEffect::Redirect(48)));
}

#[test]
fn jal_links_and_redirects() {
    let (mut cpu, mut mem) = fresh(64);
    cpu.pc = 12;
    let r = cpu.step(Instruction::Jal { rd: 1, imm: -12 }, &mut mem);
    assert_eq!(r, Ok(ControlEffect::Redirect(0)));
    assert_eq!(cpu.regs[1], 16); // return address = pc + 4
}

#[test]
fn smul16_lanes_multiply_independently() {
    let (mut cpu, mut mem) = fresh(64);
    cpu.regs[1] = 0x00020003;
    cpu.regs[2] = 0x00040005;
    cpu.step(Instruction::Smul16 { rd: 3, rs1: 1, rs2: 2 }, &mut mem).unwrap();
    assert_eq!(cpu.regs[3], 0x0008000f);
    // products are truncated to 16 bits and never carry between lanes
    cpu.regs[1] = 0x7fff7fff;
    cpu.regs[2] = 0x00020002;
    cpu.step(Instruction::Smul16 { rd: 4, rs1: 1, rs2: 2 }, &mut mem).unwrap();
    // 0x7fff * 2 = 0xfffe in each lane
    assert_eq!(cpu.regs[4], 0xfffefffe);
}

#[test]
fn smaqa_accumulates_byte_products() {
    let (mut cpu, mut mem) = fresh(64);
    cpu.regs[1] = 0x01020304;
    cpu.regs[2] = 0x04030201;
    cpu.step(Instruction::Smaqa { rd: 3, rs1: 1, rs2: 2 }, &mut mem).unwrap();
    assert_eq!(cpu.regs[3], 20);
    // accumulates on top of the existing rd value
    cpu.step(Instruction::Smaqa { rd: 3, rs1: 1, rs2: 2 }, &mut mem).unwrap();
    assert_eq!(cpu.regs[3], 40);
}

#[test]
fn smaqa_signed_bytes() {
    let (mut cpu, mut mem) = fresh(64);
    // 0xff as a signed byte is -1
    cpu.regs[1] = 0x000000ff;
    cpu.regs[2] = 0x00000002;
    cpu.step(Instruction::Smaqa { rd: 3, rs1: 1, rs2: 2 }, &mut mem).unwrap();
    assert_eq!(cpu.regs[3], (-2i32) as u32);
}

#[test]
fn kadd16_saturates_at_the_boundary() {
    let (mut cpu, mut mem) = fresh(64);
    cpu.regs[1] = 0x00007fff;
    cpu.regs[2] = 0x00000001;
    cpu.step(Instruction::Kadd16 { rd: 3, rs1: 1, rs2: 2 }, &mut mem).unwrap();
    assert_eq!(cpu.regs[3], 0x00007fff); // saturated, not 0x8000
    // negative saturation in the high lane, plain add in the low lane
    cpu.regs[1] = 0x80000001;
    cpu.regs[2] = 0xffff0001;
    cpu.step(Instruction::Kadd16 { rd: 4, rs1: 1, rs2: 2 }, &mut mem).unwrap();
    assert_eq!(cpu.regs[4], 0x80000002); // -32768 + -1 saturates to -32768
}

#[test]
fn ksub16_wraps_without_saturation() {
    let (mut cpu, mut mem) = fresh(64);
    cpu.regs[1] = 0x80000000; // high lane -32768, low lane 0
    cpu.regs[2] = 0x00010001;
    cpu.step(Instruction::Ksub16 { rd: 3, rs1: 1, rs2: 2 }, &mut mem).unwrap();
    // -32768 - 1 wraps to 32767; 0 - 1 wraps to 0xffff
    assert_eq!(cpu.regs[3], 0x7fffffff);
}

#[test]
fn kslra16_arithmetic_shift_per_lane() {
    let (mut cpu, mut mem) = fresh(64);
    cpu.regs[1] = 0x80004000; // high lane -32768, low lane 0x4000
    cpu.regs[2] = 0x12342; // shift amount = low 4 bits = 2
    cpu.step(Instruction::Kslra16 { rd: 3, rs1: 1, rs2: 2 }, &mut mem).unwrap();
    // -32768 >> 2 = -8192 (0xe000); 0x4000 >> 2 = 0x1000
    assert_eq!(cpu.regs[3], 0xe0001000);
    // shift by zero is the identity
    cpu.regs[2] = 0x10;
    cpu.step(Instruction::Kslra16 { rd: 4, rs1: 1, rs2: 2 }, &mut mem).unwrap();
    assert_eq!(cpu.regs[4], 0x80004000);
}

#[test]
fn shfl_reverses_bit_order() {
    let (mut cpu, mut mem) = fresh(64);
    cpu.regs[1] = 0x00000001;
    cpu.step(Instruction::Shfl { rd: 2, rs1: 1 }, &mut mem).unwrap();
    assert_eq!(cpu.regs[2], 0x80000000);
    cpu.regs[1] = 0x12345678;
    cpu.step(Instruction::Shfl { rd: 3, rs1: 1 }, &mut mem).unwrap();
    assert_eq!(cpu.regs[3], 0x12345678u32.reverse_bits());
}

#[test]
fn shfl_twice_is_identity() {
    let (mut cpu, mut mem) = fresh(64);
    for &x in &[0u32, 1, 0xdeadbeef, 0x12345678, 0xffffffff, 0x80000001] {
        cpu.regs[1] = x;
        cpu.step(Instruction::Shfl { rd: 2, rs1: 1 }, &mut mem).unwrap();
        cpu.step(Instruction::Shfl { rd: 3, rs1: 2 }, &mut mem).unwrap();
        assert_eq!(cpu.regs[3], x);
    }
}

#[test]
fn pkbb16_interleaves_low_bytes() {
    let (mut cpu, mut mem) = fresh(64);
    cpu.regs[1] = 0x0000a1b2; // bytes: b2 (low), a1
    cpu.regs[2] = 0x0000c3d4; // bytes: d4 (low), c3
    cpu.step(Instruction::Pkbb16 { rd: 3, rs1: 1, rs2: 2 }, &mut mem).unwrap();
    // low lane: d4 << 8 | b2; high lane: c3 << 8 | a1
    assert_eq!(cpu.regs[3], 0xc3a1d4b2);
}

#[test]
fn unknown_changes_no_state() {
    let (mut cpu, mut mem) = fresh(64);
    cpu.regs[5] = 99;
    let r = cpu.step(Instruction::Unknown(0xdeadbeef), &mut mem);
    assert_eq!(r, Ok(ControlEffect::Continue));
    assert_eq!(cpu.regs[5], 99);
    assert_eq!(cpu.pc, 0);
}
