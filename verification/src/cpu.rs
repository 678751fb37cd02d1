//! Execution unit: the architectural register file, the program counter,
//! and the semantics of every instruction, standard and packed. Executing
//! an instruction yields a control effect (fall through or redirect) or a
//! memory fault; it never touches the program counter itself.

use crate::bits::{
    as_signed16, as_signed8, asr16, asr16_exec, bits32_of_i32, byte_of, hi16, hi_half, lo16,
    lo_half, mul_s8, pack16, pack_halves, sat16, sat_add16, signed8, to_bits16, to_bits32,
    wrap_add, wrap_add_signed, wrap_mul16, wrap_sub, wrap_sub16,
};
use crate::isa::{instr_wf, Instruction};
use crate::mem::{store_word, word_at, Memory};
use vstd::prelude::*;

verus! {

/// What the caller must do with the program counter after one instruction:
/// fall through to the next word, or redirect to a computed target.
#[derive(Clone, Copy, Debug, PartialEq, Eq, Structural)]
pub enum ControlEffect {
    Continue,
    Redirect(u32),
}

/// A fatal condition raised by one instruction: a load or store whose
/// effective address does not fit in memory.
#[derive(Clone, Copy, Debug, PartialEq, Eq, Structural)]
pub enum StepError {
    MemOutOfBounds { addr: u32 },
}

/// The architectural register file invariant: 32 slots, slot 0 pinned to
/// zero.
pub open spec fn cpu_wf(regs: Seq<u32>) -> bool {
    regs.len() == 32 && regs[0] == 0
}

/// A register write obeying the x0 discard rule: writes to slot 0 are
/// silently dropped.
pub open spec fn write_reg(regs: Seq<u32>, rd: int, v: u32) -> Seq<u32>
    recommends
        0 <= rd < regs.len(),
{
    if rd == 0 {
        regs
    } else {
        regs.update(rd, v)
    }
}

/// Dual 16-bit signed multiply: each half multiplied independently, each
/// product truncated to its low 16 bits; the lanes never carry into each
/// other.
pub open spec fn smul16_spec(a: u32, b: u32) -> u32 {
    pack16(
        to_bits16(as_signed16(hi16(a)) * as_signed16(hi16(b))),
        to_bits16(as_signed16(lo16(a)) * as_signed16(lo16(b))),
    )
}

/// Dual 16-bit saturating add: each signed half clamped to the 16-bit
/// range instead of wrapping.
pub open spec fn kadd16_spec(a: u32, b: u32) -> u32 {
    pack16(
        to_bits16(sat16(as_signed16(hi16(a)) + as_signed16(hi16(b)))),
        to_bits16(sat16(as_signed16(lo16(a)) + as_signed16(lo16(b)))),
    )
}

/// Dual 16-bit wrapping subtract.
pub open spec fn ksub16_spec(a: u32, b: u32) -> u32 {
    pack16(
        to_bits16(as_signed16(hi16(a)) - as_signed16(hi16(b))),
        to_bits16(as_signed16(lo16(a)) - as_signed16(lo16(b))),
    )
}

/// Dual 16-bit arithmetic right shift; the shift amount is the low 4 bits
/// of the second operand.
pub open spec fn kslra16_spec(a: u32, b: u32) -> u32 {
    pack16(asr16(hi16(a), (b % 16) as nat), asr16(lo16(a), (b % 16) as nat))
}

/// Sum of the four signed byte-lane products.
pub open spec fn smaqa_sum(a: u32, b: u32) -> int {
    as_signed8(byte_of(a, 0)) * as_signed8(byte_of(b, 0)) + as_signed8(byte_of(a, 1)) * as_signed8(
        byte_of(b, 1),
    ) + as_signed8(byte_of(a, 2)) * as_signed8(byte_of(b, 2)) + as_signed8(byte_of(a, 3))
        * as_signed8(byte_of(b, 3))
}

/// Four-way signed-byte multiply-accumulate: the lane products are summed
/// and added, wrapping, into the existing accumulator value.
pub open spec fn smaqa_spec(a: u32, b: u32, acc: u32) -> u32 {
    to_bits32(acc + smaqa_sum(a, b))
}

/// Interleaved byte pack of the two low half-words: low bytes of the
/// operands into the low 16-bit lane, the next bytes into the high lane.
pub open spec fn pkbb16_spec(a: u32, b: u32) -> u32 {
    pack16(
        (byte_of(b, 1) * 0x100 + byte_of(a, 1)) as u32,
        (byte_of(b, 0) * 0x100 + byte_of(a, 0)) as u32,
    )
}

/// Full 32-bit bit-order reversal (bit 0 to bit 31 and so on) by butterfly
/// swaps at strides 16, 8, 4, 2, 1.
pub open spec fn bit_reverse32(x: u32) -> u32 {
    let a = ((x & 0x0000ffff) << 16) | ((x & 0xffff0000) >> 16);
    let b = ((a & 0x00ff00ff) << 8) | ((a & 0xff00ff00) >> 8);
    let c = ((b & 0x0f0f0f0f) << 4) | ((b & 0xf0f0f0f0) >> 4);
    let d = ((c & 0x33333333) << 2) | ((c & 0xcccccccc) >> 2);
    ((d & 0x55555555) << 1) | ((d & 0xaaaaaaaa) >> 1)
}

/// The exact effect of one instruction on the register file and memory,
/// and the control effect or fault it produces. The program counter is
/// read (for jump-and-link and branch targets) but never written here.
pub open spec fn step_spec(regs: Seq<u32>, pc: u32, mem: Seq<u8>, instr: Instruction) -> (
    Seq<u32>,
    Seq<u8>,
    Result<ControlEffect, StepError>,
)
    recommends
        cpu_wf(regs),
        instr_wf(instr),
{
    match instr {
        Instruction::Add { rd, rs1, rs2 } => (
            write_reg(regs, rd as int, to_bits32(regs[rs1 as int] + regs[rs2 as int])),
            mem,
            Ok(ControlEffect::Continue),
        ),
        Instruction::Addi { rd, rs1, imm } => (
            write_reg(regs, rd as int, to_bits32(regs[rs1 as int] + imm)),
            mem,
            Ok(ControlEffect::Continue),
        ),
        Instruction::Lui { rd, imm } => (
            write_reg(regs, rd as int, imm),
            mem,
            Ok(ControlEffect::Continue),
        ),
        Instruction::Sub { rd, rs1, rs2 } => (
            write_reg(regs, rd as int, to_bits32(regs[rs1 as int] - regs[rs2 as int])),
            mem,
            Ok(ControlEffect::Continue),
        ),
        Instruction::Or { rd, rs1, rs2 } => (
            write_reg(regs, rd as int, regs[rs1 as int] | regs[rs2 as int]),
            mem,
            Ok(ControlEffect::Continue),
        ),
        Instruction::And { rd, rs1, rs2 } => (
            write_reg(regs, rd as int, regs[rs1 as int] & regs[rs2 as int]),
            mem,
            Ok(ControlEffect::Continue),
        ),
        Instruction::Xori { rd, rs1, imm } => (
            write_reg(regs, rd as int, regs[rs1 as int] ^ to_bits32(imm as int)),
            mem,
            Ok(ControlEffect::Continue),
        ),
        Instruction::Lw { rd, rs1, imm } => {
            let addr = to_bits32(regs[rs1 as int] + imm);
            if addr + 4 <= mem.len() {
                (
                    write_reg(regs, rd as int, word_at(mem, addr as int)),
                    mem,
                    Ok(ControlEffect::Continue),
                )
            } else {
                (regs, mem, Err(StepError::MemOutOfBounds { addr }))
            }
        },
        Instruction::Sw { rs1, rs2, imm } => {
            let addr = to_bits32(regs[rs1 as int] + imm);
            if addr + 4 <= mem.len() {
                (
                    regs,
                    store_word(mem, addr as int, regs[rs2 as int]),
                    Ok(ControlEffect::Continue),
                )
            } else {
                (regs, mem, Err(StepError::MemOutOfBounds { addr }))
            }
        },
        Instruction::Beq { rs1, rs2, imm } => {
            if regs[rs1 as int] == regs[rs2 as int] {
                (regs, mem, Ok(ControlEffect::Redirect(to_bits32(pc + imm))))
            } else {
                (regs, mem, Ok(ControlEffect::Continue))
            }
        },
        Instruction::Bne { rs1, rs2, imm } => {
            if regs[rs1 as int] != regs[rs2 as int] {
                (regs, mem, Ok(ControlEffect::Redirect(to_bits32(pc + imm))))
            } else {
                (regs, mem, Ok(ControlEffect::Continue))
            }
        },
        Instruction::Jal { rd, imm } => (
            write_reg(regs, rd as int, to_bits32(pc + 4)),
            mem,
            Ok(ControlEffect::Redirect(to_bits32(pc + imm))),
        ),
        Instruction::Smaqa { rd, rs1, rs2 } => (
            write_reg(
                regs,
                rd as int,
                smaqa_spec(regs[rs1 as int], regs[rs2 as int], regs[rd as int]),
            ),
            mem,
            Ok(ControlEffect::Continue),
        ),
        Instruction::Smul16 { rd, rs1, rs2 } => (
            write_reg(regs, rd as int, smul16_spec(regs[rs1 as int], regs[rs2 as int])),
            mem,
            Ok(ControlEffect::Continue),
        ),
        Instruction::Kadd16 { rd, rs1, rs2 } => (
            write_reg(regs, rd as int, kadd16_spec(regs[rs1 as int], regs[rs2 as int])),
            mem,
            Ok(ControlEffect::Continue),
        ),
        Instruction::Ksub16 { rd, rs1, rs2 } => (
            write_reg(regs, rd as int, ksub16_spec(regs[rs1 as int], regs[rs2 as int])),
            mem,
            Ok(ControlEffect::Continue),
        ),
        Instruction::Kslra16 { rd, rs1, rs2 } => (
            write_reg(regs, rd as int, kslra16_spec(regs[rs1 as int], regs[rs2 as int])),
            mem,
            Ok(ControlEffect::Continue),
        ),
        Instruction::Shfl { rd, rs1 } => (
            write_reg(regs, rd as int, bit_reverse32(regs[rs1 as int])),
            mem,
            Ok(ControlEffect::Continue),
        ),
        Instruction::Pkbb16 { rd, rs1, rs2 } => (
            write_reg(regs, rd as int, pkbb16_spec(regs[rs1 as int], regs[rs2 as int])),
            mem,
            Ok(ControlEffect::Continue),
        ),
        Instruction::Unknown(_) => (regs, mem, Ok(ControlEffect::Continue)),
    }
}

/// CPU state: the register file and the program counter.
pub struct Cpu {
    pub regs: Vec<u32>,
    pub pc: u32,
}

impl Cpu {
    /// The register file is well formed: 32 slots with slot 0 zero.
    pub open spec fn wf(&self) -> bool {
        cpu_wf(self.regs@)
    }

    /// A fresh CPU: all registers zero, program counter zero.
    pub fn new() -> (c: Cpu)
        ensures
            c.wf(),
            c.regs@.len() == 32,
            forall|i: int| 0 <= i < 32 ==> c.regs@[i] == 0u32,
            c.pc == 0,
    {
        let mut regs: Vec<u32> = Vec::new();
        let mut n: usize = 0;
        while n < 32
            invariant
                n <= 32,
                regs@.len() == n,
                forall|i: int| 0 <= i < n ==> regs@[i] == 0u32,
            decreases 32 - n,
        {
            regs.push(0);
            n = n + 1;
        }
        Cpu { regs, pc: 0 }
    }

    /// Write a register, obeying the x0 discard rule: a write to slot 0
    /// never observably succeeds.
    pub fn write(&mut self, reg: usize, value: u32)
        requires
            old(self).wf(),
            reg < 32,
        ensures
            final(self).wf(),
            final(self).regs@ == write_reg(old(self).regs@, reg as int, value),
            final(self).pc == old(self).pc,
    {
        if reg != 0 {
            self.regs[reg] = value;
        }
    }

    /// Execute one decoded instruction against this CPU state and memory.
    /// Returns the control effect the caller must apply to the program
    /// counter, or the fault that ends the run; the program counter itself
    /// is left untouched.
    pub fn step(&mut self, instr: Instruction, mem: &mut Memory) -> (r: Result<
        ControlEffect,
        StepError,
    >)
        requires
            old(self).wf(),
            instr_wf(instr),
        ensures
            final(self).wf(),
            final(self).pc == old(self).pc,
            ({
                let (regs_post, mem_post, res) = step_spec(
                    old(self).regs@,
                    old(self).pc,
                    old(mem)@,
                    instr,
                );
                final(self).regs@ == regs_post && final(mem)@ == mem_post && r == res
            }),
    {
        match instr {
            Instruction::Add { rd, rs1, rs2 } => {
                let result = wrap_add(self.regs[rs1], self.regs[rs2]);
                self.write(rd, result);
                Ok(ControlEffect::Continue)
            },
            Instruction::Addi { rd, rs1, imm } => {
                let result = wrap_add_signed(self.regs[rs1], imm);
                self.write(rd, result);
                Ok(ControlEffect::Continue)
            },
            Instruction::Lui { rd, imm } => {
                self.write(rd, imm);
                Ok(ControlEffect::Continue)
            },
            Instruction::Sub { rd, rs1, rs2 } => {
                let result = wrap_sub(self.regs[rs1], self.regs[rs2]);
                self.write(rd, result);
                Ok(ControlEffect::Continue)
            },
            Instruction::Or { rd, rs1, rs2 } => {
                let result = self.regs[rs1] | self.regs[rs2];
                self.write(rd, result);
                Ok(ControlEffect::Continue)
            },
            Instruction::And { rd, rs1, rs2 } => {
                let result = self.regs[rs1] & self.regs[rs2];
                self.write(rd, result);
                Ok(ControlEffect::Continue)
            },
            Instruction::Xori { rd, rs1, imm } => {
                let result = self.regs[rs1] ^ bits32_of_i32(imm);
                self.write(rd, result);
                Ok(ControlEffect::Continue)
            },
            Instruction::Lw { rd, rs1, imm } => {
                let addr = wrap_add_signed(self.regs[rs1], imm);
                let a = addr as usize;
                let mem_len = mem.data.len();
                if a < mem_len && mem_len - a >= 4 {
                    let val = mem.read_u32(a);
                    self.write(rd, val);
                    Ok(ControlEffect::Continue)
                } else {
                    Err(StepError::MemOutOfBounds { addr })
                }
            },
            Instruction::Sw { rs1, rs2, imm } => {
                let addr = wrap_add_signed(self.regs[rs1], imm);
                let a = addr as usize;
                let mem_len = mem.data.len();
                if a < mem_len && mem_len - a >= 4 {
                    let val = self.regs[rs2];
                    mem.write_u32(a, val);
                    Ok(ControlEffect::Continue)
                } else {
                    Err(StepError::MemOutOfBounds { addr })
                }
            },
            Instruction::Beq { rs1, rs2, imm } => {
                if self.regs[rs1] == self.regs[rs2] {
                    Ok(ControlEffect::Redirect(wrap_add_signed(self.pc, imm)))
                } else {
                    Ok(ControlEffect::Continue)
                }
            },
            Instruction::Bne { rs1, rs2, imm } => {
                if self.regs[rs1] != self.regs[rs2] {
                    Ok(ControlEffect::Redirect(wrap_add_signed(self.pc, imm)))
                } else {
                    Ok(ControlEffect::Continue)
                }
            },
            Instruction::Jal { rd, imm } => {
                let link = wrap_add(self.pc, 4);
                let target = wrap_add_signed(self.pc, imm);
                self.write(rd, link);
                Ok(ControlEffect::Redirect(target))
            },
            Instruction::Smaqa { rd, rs1, rs2 } => {
                let a = self.regs[rs1];
                let b = self.regs[rs2];
                let acc = self.regs[rd];
                proof {
                    assert(a / 0x1000000 < 0x100 && b / 0x1000000 < 0x100) by (nonlinear_arith)
                        requires
                            a < 0x1_0000_0000,
                            b < 0x1_0000_0000,
                    ;
                }
                let p0 = mul_s8(a % 0x100, b % 0x100);
                let p1 = mul_s8(a / 0x100 % 0x100, b / 0x100 % 0x100);
                let p2 = mul_s8(a / 0x10000 % 0x100, b / 0x10000 % 0x100);
                let p3 = mul_s8(a / 0x1000000, b / 0x1000000);
                let sum = p0 + p1 + p2 + p3;
                let result = wrap_add_signed(acc, sum);
                self.write(rd, result);
                Ok(ControlEffect::Continue)
            },
            Instruction::Smul16 { rd, rs1, rs2 } => {
                let a = self.regs[rs1];
                let b = self.regs[rs2];
                let lo = wrap_mul16(lo_half(a), lo_half(b));
                let hi = wrap_mul16(hi_half(a), hi_half(b));
                self.write(rd, pack_halves(hi, lo));
                Ok(ControlEffect::Continue)
            },
            Instruction::Kadd16 { rd, rs1, rs2 } => {
                let a = self.regs[rs1];
                let b = self.regs[rs2];
                let lo = sat_add16(lo_half(a), lo_half(b));
                let hi = sat_add16(hi_half(a), hi_half(b));
                self.write(rd, pack_halves(hi, lo));
                Ok(ControlEffect::Continue)
            },
            Instruction::Ksub16 { rd, rs1, rs2 } => {
                let a = self.regs[rs1];
                let b = self.regs[rs2];
                let lo = wrap_sub16(lo_half(a), lo_half(b));
                let hi = wrap_sub16(hi_half(a), hi_half(b));
                self.write(rd, pack_halves(hi, lo));
                Ok(ControlEffect::Continue)
            },
            Instruction::Kslra16 { rd, rs1, rs2 } => {
                let a = self.regs[rs1];
                let shamt = self.regs[rs2] % 16;
                let lo = asr16_exec(lo_half(a), shamt);
                let hi = asr16_exec(hi_half(a), shamt);
                self.write(rd, pack_halves(hi, lo));
                Ok(ControlEffect::Continue)
            },
            Instruction::Shfl { rd, rs1 } => {
                let x = self.regs[rs1];
                let a = ((x & 0x0000ffff) << 16) | ((x & 0xffff0000) >> 16);
                let b = ((a & 0x00ff00ff) << 8) | ((a & 0xff00ff00) >> 8);
                let c = ((b & 0x0f0f0f0f) << 4) | ((b & 0xf0f0f0f0) >> 4);
                let d = ((c & 0x33333333) << 2) | ((c & 0xcccccccc) >> 2);
                let result = ((d & 0x55555555) << 1) | ((d & 0xaaaaaaaa) >> 1);
                self.write(rd, result);
                Ok(ControlEffect::Continue)
            },
            Instruction::Pkbb16 { rd, rs1, rs2 } => {
                let a = self.regs[rs1];
                let b = self.regs[rs2];
                let lower = (b % 0x100) * 0x100 + a % 0x100;
                let upper = (b / 0x100 % 0x100) * 0x100 + a / 0x100 % 0x100;
                self.write(rd, pack_halves(upper, lower));
                Ok(ControlEffect::Continue)
            },
            Instruction::Unknown(_) => Ok(ControlEffect::Continue),
        }
    }
}

/// The x0 rule holds across every instruction: whatever is executed, and
/// whatever value it computes, register slot 0 still reads back as zero.
pub proof fn lemma_x0_reads_zero(regs: Seq<u32>, pc: u32, mem: Seq<u8>, instr: Instruction)
    requires
        cpu_wf(regs),
        instr_wf(instr),
    ensures
        cpu_wf(step_spec(regs, pc, mem, instr).0),
        step_spec(regs, pc, mem, instr).0[0] == 0,
{
}

/// Bit reversal is an involution: applying it twice returns the original
/// 32-bit value, for all inputs.
pub proof fn lemma_bit_reverse_involution(x: u32)
    ensures
        bit_reverse32(bit_reverse32(x)) == x,
{
    assert(bit_reverse32(bit_reverse32(x)) == x) by (bit_vector);
}

} // verus!
