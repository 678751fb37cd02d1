use resona::mem::LoadError;
use resona::sim::{HaltReason, Simulator};

fn image(words: &[u32]) -> Vec<u8> {
    let mut bytes = Vec::new();
    for w in words {
        bytes.extend_from_slice(&w.to_le_bytes());
    }
    bytes
}

#[test]
fn fresh_simulator_state() {
    let sim = Simulator::new();
    assert_eq!(sim.cpu.pc, 0);
    assert_eq!(sim.cpu.regs, vec![0u32; 32]);
    assert_eq!(sim.mem.data.len(), 1024 * 1024);
    assert!(sim.halt_on_unknown);
}

#[test]
fn load_binary_rejects_oversized_image() {
    let mut sim = Simulator::new();
    let too_big = vec![0u8; 1024 * 1024 + 1];
    assert_eq!(sim.load_binary(&too_big), Err(LoadError::ImageTooLarge));
    // nothing was written
    assert!(sim.mem.data.iter().all(|&b| b == 0));
    let fits = vec![0xabu8; 8];
    assert_eq!(sim.load_binary(&fits), Ok(()));
    assert_eq!(&sim.mem.data[..8], &[0xab; 8]);
    assert_eq!(sim.mem.data[8], 0);
}

#[test]
fn straight_line_program_runs_and_halts_on_unknown() {
    let mut sim = Simulator::new();
    let prog = image(&[
        0x00500093, // addi x1, x0, 5
        0x00700113, // addi x2, x0, 7
        0x002081b3, // add  x3, x1, x2
        0x00900013, // addi x0, x0, 9: the write to x0 is discarded
        0x00000000, // unknown: halts the run
    ]);
    sim.load_binary(&prog).unwrap();
    let halt = sim.run(100);
    assert_eq!(halt, HaltReason::UnknownInstruction(0));
    assert_eq!(sim.cpu.regs[0], 0);
    assert_eq!(sim.cpu.regs[1], 5);
    assert_eq!(sim.cpu.regs[2], 7);
    assert_eq!(sim.cpu.regs[3], 12);
    assert_eq!(sim.cpu.pc, 16); // left pointing at the unknown word
}

#[test]
fn taken_branch_redirects_exactly_once() {
    let mut sim = Simulator::new();
    let prog = image(&[
        0x00208463, // beq x1, x2, +8  (x1 == x2 == 0: taken)
        0x00500093, // addi x1, x0, 5  (skipped)
        0x00700113, // addi x2, x0, 7  (branch target)
        0x00000000, // unknown: halt
    ]);
    sim.load_binary(&prog).unwrap();
    let halt = sim.run(100);
    assert_eq!(halt, HaltReason::UnknownInstruction(0));
    // the branch redirected to 0 + 8, not 0 + 8 + 4
    assert_eq!(sim.cpu.regs[1], 0);
    assert_eq!(sim.cpu.regs[2], 7);
}

#[test]
fn untaken_branch_falls_through_with_plain_advance() {
    let mut sim = Simulator::new();
    let prog = image(&[
        0x00209463, // bne x1, x2, +8  (x1 == x2: NOT taken, advance +4)
        0x00500093, // addi x1, x0, 5  (executed)
        0x00000000, // unknown: halt
    ]);
    sim.load_binary(&prog).unwrap();
    let halt = sim.run(100);
    assert_eq!(halt, HaltReason::UnknownInstruction(0));
    assert_eq!(sim.cpu.regs[1], 5);
    assert_eq!(sim.cpu.pc, 8);
}

#[test]
fn jal_links_and_jumps() {
    let mut sim = Simulator::new();
    let prog = image(&[
        0x008000ef, // jal x1, +8
        0x00500093, // addi x1, x0, 5 (skipped)
        0x00700113, // addi x2, x0, 7 (jump target)
        0x00000000, // unknown: halt
    ]);
    sim.load_binary(&prog).unwrap();
    let halt = sim.run(100);
    assert_eq!(halt, HaltReason::UnknownInstruction(0));
    assert_eq!(sim.cpu.regs[1], 4); // link register: pc + 4
    assert_eq!(sim.cpu.regs[2], 7);
}

#[test]
fn store_load_roundtrip_through_memory() {
    let mut sim = Simulator::new();
    let prog = image(&[
        0x123452b7, // lui x5, 0x12345
        0x00100093, // addi x1, x0, 1
        0x0450a023, // sw x5, 64(x1)
        0x0400a303, // lw x6, 64(x1)
        0x00000000, // unknown: halt
    ]);
    sim.load_binary(&prog).unwrap();
    let halt = sim.run(100);
    assert_eq!(halt, HaltReason::UnknownInstruction(0));
    assert_eq!(sim.cpu.regs[5], 0x12345000);
    assert_eq!(sim.cpu.regs[6], 0x12345000);
    // the bytes landed little-endian at address 65
    assert_eq!(&sim.mem.data[65..69], &[0x00, 0x50, 0x34, 0x12]);
}

#[test]
fn load_fault_halts_with_address() {
    let mut sim = Simulator::new();
    let prog = image(&[
        0xfff00093, // addi x1, x0, -1 (x1 = 0xffffffff)
        0x0000a303, // lw x6, 0(x1): address 0xffffffff is out of range
    ]);
    sim.load_binary(&prog).unwrap();
    let halt = sim.run(100);
    assert_eq!(halt, HaltReason::MemFault(0xffffffff));
    assert_eq!(sim.cpu.pc, 4); // pc still at the faulting instruction
}

#[test]
fn unknown_skipped_when_policy_says_so() {
    let mut sim = Simulator::new();
    sim.halt_on_unknown = false;
    let prog = image(&[
        0x00000000, // unknown: skipped as a no-op under this policy
        0x00500093, // addi x1, x0, 5
    ]);
    sim.load_binary(&prog).unwrap();
    let halt = sim.run(2);
    assert_eq!(halt, HaltReason::StepLimit);
    assert_eq!(sim.cpu.regs[1], 5);
    assert_eq!(sim.cpu.pc, 8);
}

#[test]
fn step_budget_of_zero_halts_immediately() {
    let mut sim = Simulator::new();
    let prog = image(&[0x00500093]);
    sim.load_binary(&prog).unwrap();
    let halt = sim.run(0);
    assert_eq!(halt, HaltReason::StepLimit);
    assert_eq!(sim.cpu.regs[1], 0);
    assert_eq!(sim.cpu.pc, 0);
}

#[test]
fn pc_out_of_range_halts() {
    // a 8-byte memory: after two fall-throughs the pc leaves the range
    let mut sim = Simulator::new();
    sim.mem = resona::mem::Memory::new(8);
    sim.load_binary(&image(&[0x00500093, 0x00700113])).unwrap();
    let halt = sim.run(100);
    assert_eq!(halt, HaltReason::PcOutOfRange);
    assert_eq!(sim.cpu.regs[1], 5);
    assert_eq!(sim.cpu.regs[2], 7);
    assert_eq!(sim.cpu.pc, 8);
}

#[test]
fn single_step_applies_one_cycle() {
    let mut sim = Simulator::new();
    sim.load_binary(&image(&[0x00500093])).unwrap();
    let r = sim.step();
    assert_eq!(r, None);
    assert_eq!(sim.cpu.regs[1], 5);
    assert_eq!(sim.cpu.pc, 4);
}

#[test]
fn backwards_loop_counts_down() {
    // x1 = 3; loop: x1 = x1 - 1 (addi -1); bne x1, x0, -4
    let mut sim = Simulator::new();
    let prog = image(&[
        0x00300093, // addi x1, x0, 3
        0xfff08093, // addi x1, x1, -1
        0xfe009ee3, // bne x1, x0, -4
        0x00000000, // unknown: halt
    ]);
    sim.load_binary(&prog).unwrap();
    let halt = sim.run(100);
    assert_eq!(halt, HaltReason::UnknownInstruction(0));
    assert_eq!(sim.cpu.regs[1], 0);
}
