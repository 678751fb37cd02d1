//! Shared arithmetic primitives: two's-complement interpretation of 8- and
//! 16-bit lanes, lane packing, wraparound and saturation. Every packed
//! instruction of the execution unit is specified and implemented in terms
//! of these.

use vstd::arithmetic::div_mod::{
    lemma_div_by_multiple, lemma_fundamental_div_mod, lemma_hoist_over_denominator,
    lemma_mod_add_multiples_vanish, lemma_mod_multiples_vanish, lemma_mod_sub_multiples_vanish,
    lemma_small_mod,
};
use vstd::arithmetic::power2::{lemma2_to64, lemma_pow2_adds, lemma_pow2_pos, pow2};
use vstd::bits::lemma_u32_shr_is_div;
use vstd::prelude::*;

verus! {

/// Signed value of a 16-bit two's-complement pattern.
pub open spec fn as_signed16(x: u32) -> int
    recommends
        x < 0x10000,
{
    if x < 0x8000 {
        x as int
    } else {
        x - 0x10000
    }
}

/// Signed value of an 8-bit two's-complement pattern.
pub open spec fn as_signed8(x: u32) -> int
    recommends
        x < 0x100,
{
    if x < 0x80 {
        x as int
    } else {
        x - 0x100
    }
}

/// 16-bit two's-complement pattern of an arbitrary integer (value mod 2^16).
pub open spec fn to_bits16(v: int) -> u32 {
    (v % 0x10000) as u32
}

/// 32-bit two's-complement pattern of an arbitrary integer (value mod 2^32).
pub open spec fn to_bits32(v: int) -> u32 {
    (v % 0x1_0000_0000) as u32
}

/// Low 16-bit half of a 32-bit word.
pub open spec fn lo16(x: u32) -> u32 {
    x % 0x10000
}

/// High 16-bit half of a 32-bit word.
pub open spec fn hi16(x: u32) -> u32 {
    x / 0x10000
}

/// A 32-bit word from its two 16-bit halves.
pub open spec fn pack16(hi: u32, lo: u32) -> u32
    recommends
        hi < 0x10000,
        lo < 0x10000,
{
    (hi * 0x10000 + lo) as u32
}

/// Byte lane `i` (0 = least significant) of a 32-bit word.
pub open spec fn byte_of(x: u32, i: int) -> u32
    recommends
        0 <= i < 4,
{
    if i == 0 {
        x % 0x100
    } else if i == 1 {
        x / 0x100 % 0x100
    } else if i == 2 {
        x / 0x10000 % 0x100
    } else {
        x / 0x1000000
    }
}

/// Signed saturation to the 16-bit range.
pub open spec fn sat16(v: int) -> int {
    if v > 0x7fff {
        0x7fff
    } else if v < -0x8000 {
        -0x8000
    } else {
        v
    }
}

/// Low 16-bit half, executable form.
pub fn lo_half(x: u32) -> (r: u32)
    ensures
        r == lo16(x),
        r < 0x10000,
{
    x % 0x10000
}

/// High 16-bit half, executable form.
pub fn hi_half(x: u32) -> (r: u32)
    ensures
        r == hi16(x),
        r < 0x10000,
{
    x / 0x10000
}

/// Pack two 16-bit halves into one word, executable form.
pub fn pack_halves(hi: u32, lo: u32) -> (r: u32)
    requires
        hi < 0x10000,
        lo < 0x10000,
    ensures
        r == pack16(hi, lo),
{
    hi * 0x10000 + lo
}

/// Signed value of a 16-bit pattern, executable form.
pub fn signed16(x: u32) -> (r: i32)
    requires
        x < 0x10000,
    ensures
        r == as_signed16(x),
{
    if x < 0x8000 {
        x as i32
    } else {
        (x as i32) - 0x10000
    }
}

/// 16-bit pattern of a signed value, executable form. The input range
/// covers every 16-bit lane result (sums, differences and products of
/// signed 16-bit values).
pub fn bits16_of(v: i32) -> (r: u32)
    requires
        -0x4000_0000 <= v <= 0x4000_0000,
    ensures
        r == to_bits16(v as int),
        r < 0x10000,
{
    proof {
        lemma_mod_multiples_vanish(0x4000, v as int, 0x10000);
    }
    let shifted: u64 = ((v as i64) + 0x4000_0000) as u64;
    (shifted % 0x10000) as u32
}

/// Saturating signed 16-bit addition of two lane patterns: the primitive
/// behind the packed saturating add.
pub fn sat_add16(x: u32, y: u32) -> (r: u32)
    requires
        x < 0x10000,
        y < 0x10000,
    ensures
        r == to_bits16(sat16(as_signed16(x) + as_signed16(y))),
        r < 0x10000,
{
    let sx = signed16(x);
    let sy = signed16(y);
    let sum = sx + sy;
    let clamped: i32 = if sum > 0x7fff {
        0x7fff
    } else if sum < -0x8000 {
        -0x8000
    } else {
        sum
    };
    bits16_of(clamped)
}

/// Wrapping signed 16-bit subtraction of two lane patterns: the primitive
/// behind the packed subtract.
pub fn wrap_sub16(x: u32, y: u32) -> (r: u32)
    requires
        x < 0x10000,
        y < 0x10000,
    ensures
        r == to_bits16(as_signed16(x) - as_signed16(y)),
        r < 0x10000,
{
    let sx = signed16(x);
    let sy = signed16(y);
    bits16_of(sx - sy)
}

/// Wrapping (low 16 bits of the) signed 16-bit multiplication of two lane
/// patterns: the primitive behind the packed multiply.
pub fn wrap_mul16(x: u32, y: u32) -> (r: u32)
    requires
        x < 0x10000,
        y < 0x10000,
    ensures
        r == to_bits16(as_signed16(x) * as_signed16(y)),
        r < 0x10000,
{
    let sx = signed16(x);
    let sy = signed16(y);
    proof {
        assert(-0x4000_0000 <= sx * sy <= 0x4000_0000) by (nonlinear_arith)
            requires
                -0x8000 <= sx <= 0x7fff,
                -0x8000 <= sy <= 0x7fff,
        ;
    }
    bits16_of(sx * sy)
}

/// The 16-bit pattern of a value already in the signed 16-bit window is
/// reached by one conditional wrap.
pub proof fn lemma_to_bits16_in_range(v: int)
    requires
        -0x8000 <= v < 0x10000,
    ensures
        to_bits16(v) == if v < 0 {
            v + 0x10000
        } else {
            v
        },
{
    if v < 0 {
        lemma_mod_add_multiples_vanish(v, 0x10000);
        lemma_small_mod((v + 0x10000) as nat, 0x10000);
    } else {
        lemma_small_mod(v as nat, 0x10000);
    }
}

/// The 32-bit pattern of a value within one wrap of the unsigned 32-bit
/// window is reached by one conditional wrap.
pub proof fn lemma_to_bits32_in_range(v: int)
    requires
        -0x1_0000_0000 <= v < 0x2_0000_0000,
    ensures
        to_bits32(v) == if v < 0 {
            v + 0x1_0000_0000
        } else if v < 0x1_0000_0000 {
            v
        } else {
            v - 0x1_0000_0000
        },
{
    if v < 0 {
        lemma_mod_add_multiples_vanish(v, 0x1_0000_0000);
        lemma_small_mod((v + 0x1_0000_0000) as nat, 0x1_0000_0000);
    } else if v < 0x1_0000_0000 {
        lemma_small_mod(v as nat, 0x1_0000_0000);
    } else {
        lemma_mod_sub_multiples_vanish(v, 0x1_0000_0000);
        lemma_small_mod((v - 0x1_0000_0000) as nat, 0x1_0000_0000);
    }
}

/// Wrapping 32-bit addition: the pattern of the exact sum.
pub fn wrap_add(a: u32, b: u32) -> (r: u32)
    ensures
        r == to_bits32(a + b),
{
    proof {
        lemma_to_bits32_in_range(a + b);
    }
    a.wrapping_add(b)
}

/// Wrapping 32-bit subtraction: the pattern of the exact difference.
pub fn wrap_sub(a: u32, b: u32) -> (r: u32)
    ensures
        r == to_bits32(a - b),
{
    proof {
        lemma_to_bits32_in_range(a - b);
    }
    a.wrapping_sub(b)
}

/// Wrapping addition of a signed offset to a 32-bit word: the pattern of
/// the exact sum. Used for immediate adds, effective addresses and
/// program-counter-relative targets.
pub fn wrap_add_signed(a: u32, imm: i32) -> (r: u32)
    ensures
        r == to_bits32(a + imm),
{
    proof {
        lemma_to_bits32_in_range(a + imm);
    }
    a.wrapping_add_signed(imm)
}

/// 32-bit two's-complement pattern of a signed value, executable form.
pub fn bits32_of_i32(v: i32) -> (r: u32)
    ensures
        r == to_bits32(v as int),
{
    proof {
        lemma_to_bits32_in_range(v as int);
    }
    if v >= 0 {
        v as u32
    } else {
        ((v as i64) + 0x1_0000_0000) as u32
    }
}

/// Signed value of an 8-bit pattern, executable form.
pub fn signed8(x: u32) -> (r: i32)
    requires
        x < 0x100,
    ensures
        r == as_signed8(x),
{
    if x < 0x80 {
        x as i32
    } else {
        (x as i32) - 0x100
    }
}

/// Product of two signed byte lanes: the primitive behind the packed
/// multiply-accumulate.
pub fn mul_s8(x: u32, y: u32) -> (r: i32)
    requires
        x < 0x100,
        y < 0x100,
    ensures
        r == as_signed8(x) * as_signed8(y),
        -0x4000 <= r <= 0x4000,
{
    let sx = signed8(x);
    let sy = signed8(y);
    proof {
        assert(-0x4000 <= sx * sy <= 0x4000) by (nonlinear_arith)
            requires
                -0x80 <= sx <= 0x7f,
                -0x80 <= sy <= 0x7f,
        ;
    }
    sx * sy
}

/// Arithmetic right shift of a signed 16-bit lane pattern by `sh` places:
/// floor division of the signed value by 2^sh.
pub open spec fn asr16(x: u32, sh: nat) -> u32
    recommends
        x < 0x10000,
        sh < 16,
{
    to_bits16(as_signed16(x) / pow2(sh) as int)
}

/// Arithmetic right shift of a 16-bit lane, executable form: the primitive
/// behind the packed shift.
pub fn asr16_exec(x: u32, sh: u32) -> (r: u32)
    requires
        x < 0x10000,
        sh < 16,
    ensures
        r == asr16(x, sh as nat),
        r < 0x10000,
{
    let biased = x ^ 0x8000;
    let q = biased >> sh;
    let k = 0x8000u32 >> sh;
    proof {
        assert(x < 0x10000 ==> (x ^ 0x8000) < 0x10000) by (bit_vector);
        assert((x ^ 0x8000) >> sh <= (x ^ 0x8000)) by (bit_vector);
        assert(0x8000u32 >> sh <= 0x8000) by (bit_vector);
    }
    let v: i32 = (q as i32) - (k as i32);
    proof {
        let s = as_signed16(x);
        let d = pow2(sh as nat) as int;
        lemma_pow2_pos(sh as nat);
        assert(x < 0x10000 ==> (x ^ 0x8000) == (if x < 0x8000 {
            x + 0x8000
        } else {
            x - 0x8000
        })) by (bit_vector);
        assert(biased == s + 0x8000);
        lemma_u32_shr_is_div(biased, sh);
        lemma_u32_shr_is_div(0x8000u32, sh);
        lemma_pow2_adds((15 - sh) as nat, sh as nat);
        lemma2_to64();
        lemma_div_by_multiple(pow2((15 - sh) as nat) as int, d);
        assert(k == pow2((15 - sh) as nat));
        assert(k * d == 0x8000);
        lemma_hoist_over_denominator(s, k as int, pow2(sh as nat));
        assert(q == s / d + k);
        assert(-0x8000 <= s / d <= 0x7fff) by (nonlinear_arith)
            requires
                -0x8000 <= s <= 0x7fff,
                d >= 1,
        ;
        assert(v == s / d);
        lemma_to_bits16_in_range(s / d);
    }
    if v < 0 {
        (v + 0x10000) as u32
    } else {
        v as u32
    }
}

} // verus!
