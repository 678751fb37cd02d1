//! Control loop: repeatedly fetch at the program counter, decode, execute,
//! and advance or redirect, until a halt condition. Whether an unknown
//! instruction halts the run or is skipped is a policy choice of the
//! simulator instance.

use crate::bits::{to_bits32, wrap_add};
use crate::cpu::{cpu_wf, step_spec, ControlEffect, Cpu, StepError};
use crate::isa::{decode, decode_spec, lemma_decode_wf, Instruction};
use crate::mem::{word_at, LoadError, Memory};
use vstd::prelude::*;

verus! {

/// Default memory capacity of a simulator instance: 1 MiB.
pub const MEM_SIZE: usize = 0x100000;

/// Why a run stopped.
#[derive(Clone, Copy, Debug, PartialEq, Eq, Structural)]
pub enum HaltReason {
    /// The program counter left the addressable range of memory.
    PcOutOfRange,
    /// An unrecognized encoding was fetched, under the halt-on-unknown
    /// policy; carries the raw word.
    UnknownInstruction(u32),
    /// A load or store addressed bytes outside memory; carries the
    /// effective address.
    MemFault(u32),
    /// The step budget was exhausted before the machine halted.
    StepLimit,
}

/// One fetch-decode-execute cycle: the next machine state, and the halt
/// reason if the cycle could not complete. A fall-through advances the
/// program counter by 4; a taken branch or jump sets it to the computed
/// target and applies no further advance.
#[verifier::opaque]
pub open spec fn cycle_spec(regs: Seq<u32>, pc: u32, mem: Seq<u8>, halt_on_unknown: bool) -> (
    Seq<u32>,
    u32,
    Seq<u8>,
    Option<HaltReason>,
)
    recommends
        cpu_wf(regs),
{
    if pc + 4 > mem.len() {
        (regs, pc, mem, Some(HaltReason::PcOutOfRange))
    } else {
        let raw = word_at(mem, pc as int);
        let instr = decode_spec(raw);
        if halt_on_unknown && instr is Unknown {
            (regs, pc, mem, Some(HaltReason::UnknownInstruction(raw)))
        } else {
            let (regs2, mem2, res) = step_spec(regs, pc, mem, instr);
            match res {
                Ok(ControlEffect::Continue) => (regs2, to_bits32(pc + 4), mem2, None),
                Ok(ControlEffect::Redirect(t)) => (regs2, t, mem2, None),
                Err(StepError::MemOutOfBounds { addr }) => (
                    regs2,
                    pc,
                    mem2,
                    Some(HaltReason::MemFault(addr)),
                ),
            }
        }
    }
}

/// The machine state and halt reason after running at most `fuel` cycles.
pub open spec fn run_spec(
    regs: Seq<u32>,
    pc: u32,
    mem: Seq<u8>,
    halt_on_unknown: bool,
    fuel: nat,
) -> (Seq<u32>, u32, Seq<u8>, HaltReason)
    recommends
        cpu_wf(regs),
    decreases fuel,
{
    if fuel == 0 {
        (regs, pc, mem, HaltReason::StepLimit)
    } else {
        let (regs2, pc2, mem2, halt) = cycle_spec(regs, pc, mem, halt_on_unknown);
        match halt {
            Some(reason) => (regs2, pc2, mem2, reason),
            None => run_spec(regs2, pc2, mem2, halt_on_unknown, (fuel - 1) as nat),
        }
    }
}

/// The whole machine: CPU state, memory, and the unknown-instruction
/// policy (halt, the default, or skip).
pub struct Simulator {
    pub cpu: Cpu,
    pub mem: Memory,
    pub halt_on_unknown: bool,
}

impl Simulator {
    /// The machine is well formed when its register file is.
    pub open spec fn wf(&self) -> bool {
        self.cpu.wf()
    }

    /// A fresh machine: zeroed registers, program counter 0, 1 MiB of
    /// zeroed memory, halting on unknown instructions.
    pub fn new() -> (s: Simulator)
        ensures
            s.wf(),
            s.cpu.pc == 0,
            forall|i: int| 0 <= i < 32 ==> s.cpu.regs@[i] == 0u32,
            s.mem@.len() == MEM_SIZE,
            forall|i: int| 0 <= i < MEM_SIZE ==> s.mem@[i] == 0u8,
            s.halt_on_unknown == true,
    {
        Simulator { cpu: Cpu::new(), mem: Memory::new(MEM_SIZE), halt_on_unknown: true }
    }

    /// Load a program image at address 0, leaving the rest of memory and
    /// the CPU untouched. Fails, changing nothing, iff the image exceeds
    /// memory capacity.
    pub fn load_binary(&mut self, image: &Vec<u8>) -> (r: Result<(), LoadError>)
        ensures
            r is Ok <==> image@.len() <= old(self).mem@.len(),
            r is Ok ==> final(self).mem@ == image@ + old(self).mem@.skip(image@.len() as int),
            r is Err ==> final(self).mem@ == old(self).mem@,
            final(self).cpu == old(self).cpu,
            final(self).halt_on_unknown == old(self).halt_on_unknown,
    {
        self.mem.load_binary(image)
    }

    /// Run one fetch-decode-execute cycle, applying the control effect to
    /// the program counter. Returns the halt reason if the machine halted
    /// on this cycle, else `None`.
    pub fn step(&mut self) -> (r: Option<HaltReason>)
        requires
            old(self).wf(),
        ensures
            final(self).wf(),
            final(self).halt_on_unknown == old(self).halt_on_unknown,
            ({
                let (regs2, pc2, mem2, halt) = cycle_spec(
                    old(self).cpu.regs@,
                    old(self).cpu.pc,
                    old(self).mem@,
                    old(self).halt_on_unknown,
                );
                final(self).cpu.regs@ == regs2 && final(self).cpu.pc == pc2 && final(self).mem@
                    == mem2 && r == halt
            }),
    {
        proof {
            reveal(cycle_spec);
        }
        let pc = self.cpu.pc;
        let a = pc as usize;
        let mem_len = self.mem.data.len();
        if !(a < mem_len && mem_len - a >= 4) {
            return Some(HaltReason::PcOutOfRange);
        }
        let raw = self.mem.read_u32(a);
        let instr = decode(raw);
        let is_unknown = match instr {
            Instruction::Unknown(_) => true,
            _ => false,
        };
        if self.halt_on_unknown && is_unknown {
            return Some(HaltReason::UnknownInstruction(raw));
        }
        let res = self.cpu.step(instr, &mut self.mem);
        match res {
            Ok(ControlEffect::Continue) => {
                self.cpu.pc = wrap_add(pc, 4);
                None
            },
            Ok(ControlEffect::Redirect(t)) => {
                self.cpu.pc = t;
                None
            },
            Err(StepError::MemOutOfBounds { addr }) => Some(HaltReason::MemFault(addr)),
        }
    }

    /// Run until the machine halts or `max_steps` cycles have executed;
    /// on return the final register file is left in place for inspection.
    #[verifier::rlimit(50)]
    pub fn run(&mut self, max_steps: usize) -> (h: HaltReason)
        requires
            old(self).wf(),
        ensures
            final(self).wf(),
            final(self).halt_on_unknown == old(self).halt_on_unknown,
            ({
                let (regs2, pc2, mem2, reason) = run_spec(
                    old(self).cpu.regs@,
                    old(self).cpu.pc,
                    old(self).mem@,
                    old(self).halt_on_unknown,
                    max_steps as nat,
                );
                final(self).cpu.regs@ == regs2 && final(self).cpu.pc == pc2 && final(self).mem@
                    == mem2 && h == reason
            }),
    {
        let ghost orig_regs = self.cpu.regs@;
        let ghost orig_pc = self.cpu.pc;
        let ghost orig_mem = self.mem@;
        let ghost policy = self.halt_on_unknown;
        let mut fuel: usize = max_steps;
        while fuel > 0
            invariant
                self.wf(),
                self.halt_on_unknown == policy,
                policy == old(self).halt_on_unknown,
                orig_regs == old(self).cpu.regs@,
                orig_pc == old(self).cpu.pc,
                orig_mem == old(self).mem@,
                fuel <= max_steps,
                run_spec(orig_regs, orig_pc, orig_mem, policy, max_steps as nat) == run_spec(
                    self.cpu.regs@,
                    self.cpu.pc,
                    self.mem@,
                    policy,
                    fuel as nat,
                ),
            decreases fuel,
        {
            let ghost pre_regs = self.cpu.regs@;
            let ghost pre_pc = self.cpu.pc;
            let ghost pre_mem = self.mem@;
            let r = self.step();
            proof {
                let (regs2, pc2, mem2, halt) = cycle_spec(pre_regs, pre_pc, pre_mem, policy);
                assert(run_spec(pre_regs, pre_pc, pre_mem, policy, fuel as nat) == (match halt {
                    Some(reason) => (regs2, pc2, mem2, reason),
                    None => run_spec(regs2, pc2, mem2, policy, (fuel - 1) as nat),
                }));
            }
            match r {
                Some(reason) => {
                    return reason;
                },
                None => {
                    fuel = fuel - 1;
                },
            }
        }
        HaltReason::StepLimit
    }
}

/// A taken branch-equal redirects the program counter by the decoded
/// signed offset exactly once — the default advance by 4 is not applied
/// on top — and changes no register and no memory.
pub proof fn lemma_branch_taken_no_extra_advance(
    regs: Seq<u32>,
    pc: u32,
    mem: Seq<u8>,
    policy: bool,
    rs1: usize,
    rs2: usize,
    imm: i32,
)
    requires
        cpu_wf(regs),
        pc + 4 <= mem.len(),
        decode_spec(word_at(mem, pc as int)) == (Instruction::Beq { rs1, rs2, imm }),
        regs[rs1 as int] == regs[rs2 as int],
    ensures
        ({
            let (regs2, pc2, mem2, halt) = cycle_spec(regs, pc, mem, policy);
            regs2 == regs && mem2 == mem && halt is None && pc2 == to_bits32(pc + imm)
        }),
{
    reveal(cycle_spec);
    lemma_decode_wf(word_at(mem, pc as int));
}

/// A branch-not-equal whose operands are equal falls through with the
/// plain advance by 4, changing no register and no memory.
pub proof fn lemma_branch_not_taken_falls_through(
    regs: Seq<u32>,
    pc: u32,
    mem: Seq<u8>,
    policy: bool,
    rs1: usize,
    rs2: usize,
    imm: i32,
)
    requires
        cpu_wf(regs),
        pc + 4 <= mem.len(),
        decode_spec(word_at(mem, pc as int)) == (Instruction::Bne { rs1, rs2, imm }),
        regs[rs1 as int] == regs[rs2 as int],
    ensures
        ({
            let (regs2, pc2, mem2, halt) = cycle_spec(regs, pc, mem, policy);
            regs2 == regs && mem2 == mem && halt is None && pc2 == to_bits32(pc + 4)
        }),
{
    reveal(cycle_spec);
    lemma_decode_wf(word_at(mem, pc as int));
}

} // verus!
