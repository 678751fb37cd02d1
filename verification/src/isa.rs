//! Instruction set: the tagged instruction type and the decoder from raw
//! 32-bit words. Decoding is total: every word maps to an instruction, with
//! unrecognized encodings mapped to `Unknown` carrying the raw word.

use vstd::arithmetic::power2::{lemma2_to64, pow2};
use vstd::prelude::*;

verus! {

/// One decoded instruction. Each case carries only the operand fields its
/// encoding uses; register indices are 0..32, immediates are already
/// sign-extended.
// the load-upper immediate is a raw bit pattern, the others are signed
#[allow(inconsistent_fields)]
#[derive(Clone, Copy, Debug, PartialEq, Eq, Structural)]
pub enum Instruction {
    Add { rd: usize, rs1: usize, rs2: usize },
    Addi { rd: usize, rs1: usize, imm: i32 },
    Lui { rd: usize, imm: u32 },
    Sub { rd: usize, rs1: usize, rs2: usize },
    Or { rd: usize, rs1: usize, rs2: usize },
    And { rd: usize, rs1: usize, rs2: usize },
    Xori { rd: usize, rs1: usize, imm: i32 },
    Lw { rd: usize, rs1: usize, imm: i32 },
    Sw { rs1: usize, rs2: usize, imm: i32 },
    Beq { rs1: usize, rs2: usize, imm: i32 },
    Bne { rs1: usize, rs2: usize, imm: i32 },
    Jal { rd: usize, imm: i32 },
    Smaqa { rd: usize, rs1: usize, rs2: usize },
    Smul16 { rd: usize, rs1: usize, rs2: usize },
    Kadd16 { rd: usize, rs1: usize, rs2: usize },
    Ksub16 { rd: usize, rs1: usize, rs2: usize },
    Kslra16 { rd: usize, rs1: usize, rs2: usize },
    Shfl { rd: usize, rs1: usize },
    Pkbb16 { rd: usize, rs1: usize, rs2: usize },
    Unknown(u32),
}

/// Primary opcode: low 7 bits.
pub open spec fn opcode_of(w: u32) -> u32 {
    w & 0x7f
}

/// Destination register field, bits 11:7.
pub open spec fn rd_of(w: u32) -> u32 {
    (w >> 7) & 0x1f
}

/// funct3 field, bits 14:12.
pub open spec fn funct3_of(w: u32) -> u32 {
    (w >> 12) & 0x7
}

/// First source register field, bits 19:15.
pub open spec fn rs1_of(w: u32) -> u32 {
    (w >> 15) & 0x1f
}

/// Second source register field, bits 24:20.
pub open spec fn rs2_of(w: u32) -> u32 {
    (w >> 20) & 0x1f
}

/// funct7 field, bits 31:25.
pub open spec fn funct7_of(w: u32) -> u32 {
    (w >> 25) & 0x7f
}

/// Raw 12-bit I-type immediate field, bits 31:20.
pub open spec fn imm_i_field(w: u32) -> u32 {
    (w >> 20) & 0xfff
}

/// Raw 12-bit S-type immediate field: bits 31:25 (high 7) and 11:7 (low 5).
pub open spec fn imm_s_field(w: u32) -> u32 {
    (((w >> 25) & 0x7f) << 5) | ((w >> 7) & 0x1f)
}

/// Raw 13-bit B-type immediate field: bit 31 to position 12, bit 7 to
/// position 11, bits 30:25 to 10:5, bits 11:8 to 4:1; bit 0 is zero.
pub open spec fn imm_b_field(w: u32) -> u32 {
    (((w >> 31) & 0x1) << 12) | (((w >> 7) & 0x1) << 11) | (((w >> 25) & 0x3f) << 5) | (((w >> 8)
        & 0xf) << 1)
}

/// Raw 21-bit J-type immediate field: bit 31 to position 20, bits 19:12 kept,
/// bit 20 to position 11, bits 30:21 to 10:1; bit 0 is zero.
pub open spec fn imm_j_field(w: u32) -> u32 {
    (((w >> 31) & 0x1) << 20) | (((w >> 12) & 0xff) << 12) | (((w >> 20) & 0x1) << 11) | (((w
        >> 21) & 0x3ff) << 1)
}

/// U-type immediate: bits 31:12 in place, low 12 bits zero, no sign extension.
pub open spec fn lui_imm_of(w: u32) -> u32 {
    w & 0xfffff000
}

/// Uniform sign-extension rule: the value of an n-bit field with its sign
/// bit replicated into all higher positions.
pub open spec fn sign_extend(x: u32, n: nat) -> int
    recommends
        0 < n <= 31,
        x < pow2(n),
{
    if x < pow2((n - 1) as nat) {
        x as int
    } else {
        x - pow2(n)
    }
}

/// What the decoder returns for every word: two-level dispatch on the
/// primary opcode, then funct3 (and funct7 for register-register forms).
pub open spec fn decode_spec(w: u32) -> Instruction {
    let opcode = opcode_of(w);
    if opcode == 0x33 {
        decode_r_spec(w)
    } else if opcode == 0x13 {
        decode_i_spec(w)
    } else if opcode == 0x37 {
        Instruction::Lui { rd: rd_of(w) as usize, imm: lui_imm_of(w) }
    } else if opcode == 0x03 {
        decode_load_spec(w)
    } else if opcode == 0x23 {
        decode_store_spec(w)
    } else if opcode == 0x63 {
        decode_b_spec(w)
    } else if opcode == 0x6f {
        Instruction::Jal { rd: rd_of(w) as usize, imm: sign_extend(imm_j_field(w), 21) as i32 }
    } else if opcode == 0x0b {
        decode_custom_spec(w)
    } else {
        Instruction::Unknown(w)
    }
}

/// Register-register space (opcode 0x33), selected by (funct3, funct7);
/// funct7 = 0x01 is the packed-extension family.
pub open spec fn decode_r_spec(w: u32) -> Instruction {
    let rd = rd_of(w) as usize;
    let rs1 = rs1_of(w) as usize;
    let rs2 = rs2_of(w) as usize;
    let f3 = funct3_of(w);
    let f7 = funct7_of(w);
    if f3 == 0x0 && f7 == 0x00 {
        Instruction::Add { rd, rs1, rs2 }
    } else if f3 == 0x0 && f7 == 0x20 {
        Instruction::Sub { rd, rs1, rs2 }
    } else if f3 == 0x6 && f7 == 0x00 {
        Instruction::Or { rd, rs1, rs2 }
    } else if f3 == 0x7 && f7 == 0x00 {
        Instruction::And { rd, rs1, rs2 }
    } else if f3 == 0x0 && f7 == 0x01 {
        Instruction::Smul16 { rd, rs1, rs2 }
    } else if f3 == 0x2 && f7 == 0x01 {
        Instruction::Kadd16 { rd, rs1, rs2 }
    } else if f3 == 0x3 && f7 == 0x01 {
        Instruction::Ksub16 { rd, rs1, rs2 }
    } else if f3 == 0x4 && f7 == 0x01 {
        Instruction::Kslra16 { rd, rs1, rs2 }
    } else if f3 == 0x5 && f7 == 0x01 {
        Instruction::Pkbb16 { rd, rs1, rs2 }
    } else {
        Instruction::Unknown(w)
    }
}

/// Register-immediate space (opcode 0x13), selected by funct3.
pub open spec fn decode_i_spec(w: u32) -> Instruction {
    let rd = rd_of(w) as usize;
    let rs1 = rs1_of(w) as usize;
    let imm = sign_extend(imm_i_field(w), 12) as i32;
    if funct3_of(w) == 0x0 {
        Instruction::Addi { rd, rs1, imm }
    } else if funct3_of(w) == 0x4 {
        Instruction::Xori { rd, rs1, imm }
    } else {
        Instruction::Unknown(w)
    }
}

/// Load space (opcode 0x03): only the 32-bit word load (funct3 = 0x2).
pub open spec fn decode_load_spec(w: u32) -> Instruction {
    if funct3_of(w) == 0x2 {
        Instruction::Lw {
            rd: rd_of(w) as usize,
            rs1: rs1_of(w) as usize,
            imm: sign_extend(imm_i_field(w), 12) as i32,
        }
    } else {
        Instruction::Unknown(w)
    }
}

/// Store space (opcode 0x23): only the 32-bit word store (funct3 = 0x2).
pub open spec fn decode_store_spec(w: u32) -> Instruction {
    if funct3_of(w) == 0x2 {
        Instruction::Sw {
            rs1: rs1_of(w) as usize,
            rs2: rs2_of(w) as usize,
            imm: sign_extend(imm_s_field(w), 12) as i32,
        }
    } else {
        Instruction::Unknown(w)
    }
}

/// Branch space (opcode 0x63): equal / not-equal, selected by funct3.
pub open spec fn decode_b_spec(w: u32) -> Instruction {
    let rs1 = rs1_of(w) as usize;
    let rs2 = rs2_of(w) as usize;
    let imm = sign_extend(imm_b_field(w), 13) as i32;
    if funct3_of(w) == 0x0 {
        Instruction::Beq { rs1, rs2, imm }
    } else if funct3_of(w) == 0x1 {
        Instruction::Bne { rs1, rs2, imm }
    } else {
        Instruction::Unknown(w)
    }
}

/// Custom opcode space (0x0b): packed multiply-accumulate and bit-reversal,
/// selected by funct3; both register-register with no immediate.
pub open spec fn decode_custom_spec(w: u32) -> Instruction {
    let rd = rd_of(w) as usize;
    let rs1 = rs1_of(w) as usize;
    let rs2 = rs2_of(w) as usize;
    if funct3_of(w) == 0x0 {
        Instruction::Smaqa { rd, rs1, rs2 }
    } else if funct3_of(w) == 0x1 {
        Instruction::Shfl { rd, rs1 }
    } else {
        Instruction::Unknown(w)
    }
}

/// Every register index the decoder produces is in 0..32.
pub open spec fn instr_wf(i: Instruction) -> bool {
    match i {
        Instruction::Add { rd, rs1, rs2 } => rd < 32 && rs1 < 32 && rs2 < 32,
        Instruction::Addi { rd, rs1, .. } => rd < 32 && rs1 < 32,
        Instruction::Lui { rd, .. } => rd < 32,
        Instruction::Sub { rd, rs1, rs2 } => rd < 32 && rs1 < 32 && rs2 < 32,
        Instruction::Or { rd, rs1, rs2 } => rd < 32 && rs1 < 32 && rs2 < 32,
        Instruction::And { rd, rs1, rs2 } => rd < 32 && rs1 < 32 && rs2 < 32,
        Instruction::Xori { rd, rs1, .. } => rd < 32 && rs1 < 32,
        Instruction::Lw { rd, rs1, .. } => rd < 32 && rs1 < 32,
        Instruction::Sw { rs1, rs2, .. } => rs1 < 32 && rs2 < 32,
        Instruction::Beq { rs1, rs2, .. } => rs1 < 32 && rs2 < 32,
        Instruction::Bne { rs1, rs2, .. } => rs1 < 32 && rs2 < 32,
        Instruction::Jal { rd, .. } => rd < 32,
        Instruction::Smaqa { rd, rs1, rs2 } => rd < 32 && rs1 < 32 && rs2 < 32,
        Instruction::Smul16 { rd, rs1, rs2 } => rd < 32 && rs1 < 32 && rs2 < 32,
        Instruction::Kadd16 { rd, rs1, rs2 } => rd < 32 && rs1 < 32 && rs2 < 32,
        Instruction::Ksub16 { rd, rs1, rs2 } => rd < 32 && rs1 < 32 && rs2 < 32,
        Instruction::Kslra16 { rd, rs1, rs2 } => rd < 32 && rs1 < 32 && rs2 < 32,
        Instruction::Shfl { rd, rs1 } => rd < 32 && rs1 < 32,
        Instruction::Pkbb16 { rd, rs1, rs2 } => rd < 32 && rs1 < 32 && rs2 < 32,
        Instruction::Unknown(_) => true,
    }
}

/// Sign extension of an in-range field, executable form: `full` is 2^n for
/// the field width n, `half` is 2^(n-1).
fn sext_exec(x: u32, half: u32, full: u32) -> (r: i32)
    requires
        0 < half,
        full == 2 * half,
        full <= 0x4000_0000,
        x < full,
    ensures
        r == if x < half {
            x as int
        } else {
            x - full
        },
{
    if x < half {
        x as i32
    } else {
        (x as i32) - (full as i32)
    }
}

/// Decode a raw 32-bit word into an instruction. Total: unrecognized
/// encodings yield `Unknown` carrying the word unchanged.
pub fn decode(w: u32) -> (i: Instruction)
    ensures
        i == decode_spec(w),
        instr_wf(i),
{
    proof {
        lemma_decode_wf(w);
    }
    let opcode = w & 0x7f;
    if opcode == 0x33 {
        decode_r_type(w)
    } else if opcode == 0x13 {
        decode_i_type(w)
    } else if opcode == 0x37 {
        let rd = ((w >> 7) & 0x1f) as usize;
        let imm = w & 0xfffff000;
        Instruction::Lui { rd, imm }
    } else if opcode == 0x03 {
        decode_load(w)
    } else if opcode == 0x23 {
        decode_store(w)
    } else if opcode == 0x63 {
        decode_b_type(w)
    } else if opcode == 0x6f {
        let rd = ((w >> 7) & 0x1f) as usize;
        let field = (((w >> 31) & 0x1) << 20) | (((w >> 12) & 0xff) << 12) | (((w >> 20) & 0x1)
            << 11) | (((w >> 21) & 0x3ff) << 1);
        proof {
            assert((((w >> 31) & 0x1) << 20) | (((w >> 12) & 0xff) << 12) | (((w >> 20) & 0x1)
                << 11) | (((w >> 21) & 0x3ff) << 1) < 0x200000) by (bit_vector);
            lemma2_to64();
        }
        let imm = sext_exec(field, 0x100000, 0x200000);
        Instruction::Jal { rd, imm }
    } else if opcode == 0x0b {
        let rd = ((w >> 7) & 0x1f) as usize;
        let funct3 = (w >> 12) & 0x7;
        let rs1 = ((w >> 15) & 0x1f) as usize;
        let rs2 = ((w >> 20) & 0x1f) as usize;
        if funct3 == 0x0 {
            Instruction::Smaqa { rd, rs1, rs2 }
        } else if funct3 == 0x1 {
            Instruction::Shfl { rd, rs1 }
        } else {
            Instruction::Unknown(w)
        }
    } else {
        Instruction::Unknown(w)
    }
}

/// Register-register decode (opcode 0x33).
fn decode_r_type(w: u32) -> (i: Instruction)
    ensures
        i == decode_r_spec(w),
{
    let funct3 = (w >> 12) & 0x7;
    let funct7 = (w >> 25) & 0x7f;
    let rd = ((w >> 7) & 0x1f) as usize;
    let rs1 = ((w >> 15) & 0x1f) as usize;
    let rs2 = ((w >> 20) & 0x1f) as usize;
    if funct3 == 0x0 && funct7 == 0x00 {
        Instruction::Add { rd, rs1, rs2 }
    } else if funct3 == 0x0 && funct7 == 0x20 {
        Instruction::Sub { rd, rs1, rs2 }
    } else if funct3 == 0x6 && funct7 == 0x00 {
        Instruction::Or { rd, rs1, rs2 }
    } else if funct3 == 0x7 && funct7 == 0x00 {
        Instruction::And { rd, rs1, rs2 }
    } else if funct3 == 0x0 && funct7 == 0x01 {
        Instruction::Smul16 { rd, rs1, rs2 }
    } else if funct3 == 0x2 && funct7 == 0x01 {
        Instruction::Kadd16 { rd, rs1, rs2 }
    } else if funct3 == 0x3 && funct7 == 0x01 {
        Instruction::Ksub16 { rd, rs1, rs2 }
    } else if funct3 == 0x4 && funct7 == 0x01 {
        Instruction::Kslra16 { rd, rs1, rs2 }
    } else if funct3 == 0x5 && funct7 == 0x01 {
        Instruction::Pkbb16 { rd, rs1, rs2 }
    } else {
        Instruction::Unknown(w)
    }
}

/// Register-immediate decode (opcode 0x13).
fn decode_i_type(w: u32) -> (i: Instruction)
    ensures
        i == decode_i_spec(w),
{
    let funct3 = (w >> 12) & 0x7;
    let rd = ((w >> 7) & 0x1f) as usize;
    let rs1 = ((w >> 15) & 0x1f) as usize;
    let field = (w >> 20) & 0xfff;
    proof {
        assert((w >> 20) & 0xfff < 0x1000) by (bit_vector);
        lemma2_to64();
    }
    let imm = sext_exec(field, 0x800, 0x1000);
    if funct3 == 0x0 {
        Instruction::Addi { rd, rs1, imm }
    } else if funct3 == 0x4 {
        Instruction::Xori { rd, rs1, imm }
    } else {
        Instruction::Unknown(w)
    }
}

/// Word-load decode (opcode 0x03).
fn decode_load(w: u32) -> (i: Instruction)
    ensures
        i == decode_load_spec(w),
{
    let funct3 = (w >> 12) & 0x7;
    let rd = ((w >> 7) & 0x1f) as usize;
    let rs1 = ((w >> 15) & 0x1f) as usize;
    let field = (w >> 20) & 0xfff;
    proof {
        assert((w >> 20) & 0xfff < 0x1000) by (bit_vector);
        lemma2_to64();
    }
    let imm = sext_exec(field, 0x800, 0x1000);
    if funct3 == 0x2 {
        Instruction::Lw { rd, rs1, imm }
    } else {
        Instruction::Unknown(w)
    }
}

/// Word-store decode (opcode 0x23): the immediate is split across bits
/// 31:25 and 11:7.
fn decode_store(w: u32) -> (i: Instruction)
    ensures
        i == decode_store_spec(w),
{
    let funct3 = (w >> 12) & 0x7;
    let rs1 = ((w >> 15) & 0x1f) as usize;
    let rs2 = ((w >> 20) & 0x1f) as usize;
    let field = (((w >> 25) & 0x7f) << 5) | ((w >> 7) & 0x1f);
    proof {
        assert((((w >> 25) & 0x7f) << 5) | ((w >> 7) & 0x1f) < 0x1000) by (bit_vector);
        lemma2_to64();
    }
    let imm = sext_exec(field, 0x800, 0x1000);
    if funct3 == 0x2 {
        Instruction::Sw { rs1, rs2, imm }
    } else {
        Instruction::Unknown(w)
    }
}

/// Branch decode (opcode 0x63): the 13-bit immediate is reassembled from
/// scattered fields with bit 0 forced to zero.
fn decode_b_type(w: u32) -> (i: Instruction)
    ensures
        i == decode_b_spec(w),
{
    let funct3 = (w >> 12) & 0x7;
    let rs1 = ((w >> 15) & 0x1f) as usize;
    let rs2 = ((w >> 20) & 0x1f) as usize;
    let field = (((w >> 31) & 0x1) << 12) | (((w >> 7) & 0x1) << 11) | (((w >> 25) & 0x3f) << 5) | (
    ((w >> 8) & 0xf) << 1);
    proof {
        assert((((w >> 31) & 0x1) << 12) | (((w >> 7) & 0x1) << 11) | (((w >> 25) & 0x3f) << 5) | ((
        (w >> 8) & 0xf) << 1) < 0x2000) by (bit_vector);
        lemma2_to64();
    }
    let imm = sext_exec(field, 0x1000, 0x2000);
    if funct3 == 0x0 {
        Instruction::Beq { rs1, rs2, imm }
    } else if funct3 == 0x1 {
        Instruction::Bne { rs1, rs2, imm }
    } else {
        Instruction::Unknown(w)
    }
}

/// Every decoded instruction has its register indices in 0..32.
pub proof fn lemma_decode_wf(w: u32)
    ensures
        instr_wf(decode_spec(w)),
{
    assert((w >> 7) & 0x1f < 32) by (bit_vector);
    assert((w >> 15) & 0x1f < 32) by (bit_vector);
    assert((w >> 20) & 0x1f < 32) by (bit_vector);
}

/// A word whose primary opcode is assigned to no instruction family decodes
/// to `Unknown` carrying the word unchanged; in particular the all-zero
/// word does.
pub proof fn lemma_unassigned_opcode_unknown(w: u32)
    requires
        opcode_of(w) != 0x33,
        opcode_of(w) != 0x13,
        opcode_of(w) != 0x37,
        opcode_of(w) != 0x03,
        opcode_of(w) != 0x23,
        opcode_of(w) != 0x63,
        opcode_of(w) != 0x6f,
        opcode_of(w) != 0x0b,
    ensures
        decode_spec(w) == Instruction::Unknown(w),
{
}

} // verus!
