//! Word arithmetic: what the integer and multiply/divide instructions
//! compute on 32-bit two's-complement words.

use vstd::prelude::*;
use vstd::arithmetic::div_mod::{
    lemma_div_nonincreasing, lemma_div_pos_is_pos, lemma_fundamental_div_mod,
    lemma_fundamental_div_mod_converse, lemma_mod_multiples_vanish, lemma_mod_pos_bound,
    lemma_mul_mod_noop_right, lemma_small_mod,
};
use vstd::arithmetic::power2::{lemma2_to64, lemma_pow2_pos, lemma_pow2_unfold, pow2};
use vstd::bits::lemma_u32_shr_is_div;

verus! {

/// The two's-complement value of a word.
pub open spec fn signed(x: u32) -> int {
    if x < 0x8000_0000 {
        x as int
    } else {
        x as int - 0x1_0000_0000
    }
}

/// The word congruent to `i` modulo 2^32.
pub open spec fn wrap(i: int) -> u32 {
    (i % 0x1_0000_0000) as u32
}

/// The absolute value of `i`.
pub open spec fn magnitude(i: int) -> int {
    if i < 0 {
        -i
    } else {
        i
    }
}

/// The quotient of `x` by `y` rounded toward zero, for `y != 0`.
pub open spec fn quotient_toward_zero(x: int, y: int) -> int {
    if (x < 0) == (y < 0) {
        magnitude(x) / magnitude(y)
    } else {
        -(magnitude(x) / magnitude(y))
    }
}

/// The remainder that goes with `quotient_toward_zero`: it has the sign of
/// the dividend `x`.
pub open spec fn remainder_toward_zero(x: int, y: int) -> int {
    if x < 0 {
        -(magnitude(x) % magnitude(y))
    } else {
        magnitude(x) % magnitude(y)
    }
}

/// Two to the power of the shift amount that `b` holds in its low five
/// bits. The powers are written out, so that the factor of a given `b` is
/// a number and not a recursion; `law_shift_factor` says that they are the
/// powers of two.
pub open spec fn shift_factor(b: u32) -> int {
    match b % 32 {
        0 => 0x1,
        1 => 0x2,
        2 => 0x4,
        3 => 0x8,
        4 => 0x10,
        5 => 0x20,
        6 => 0x40,
        7 => 0x80,
        8 => 0x100,
        9 => 0x200,
        10 => 0x400,
        11 => 0x800,
        12 => 0x1000,
        13 => 0x2000,
        14 => 0x4000,
        15 => 0x8000,
        16 => 0x1_0000,
        17 => 0x2_0000,
        18 => 0x4_0000,
        19 => 0x8_0000,
        20 => 0x10_0000,
        21 => 0x20_0000,
        22 => 0x40_0000,
        23 => 0x80_0000,
        24 => 0x100_0000,
        25 => 0x200_0000,
        26 => 0x400_0000,
        27 => 0x800_0000,
        28 => 0x1000_0000,
        29 => 0x2000_0000,
        30 => 0x4000_0000,
        _ => 0x8000_0000,
    }
}

/// `a` shifted right by `shift < 32` places, the vacated high bits filled
/// with copies of bit 31 of `a`.
pub open spec fn shift_right_arithmetic(a: u32, shift: u32) -> u32 {
    (a >> shift) | (if a & 0x8000_0000 != 0 {
        !(0xffff_ffffu32 >> shift)
    } else {
        0
    })
}

/// The low byte of `value` as a signed 8-bit number, as a word.
pub open spec fn sign_extend_byte(value: u32) -> u32 {
    if value % 0x100 >= 0x80 {
        (value % 0x100 + 0xffff_ff00) as u32
    } else {
        value % 0x100
    }
}

/// The low halfword of `value` as a signed 16-bit number, as a word.
pub open spec fn sign_extend_halfword(value: u32) -> u32 {
    if value % 0x1_0000 >= 0x8000 {
        (value % 0x1_0000 + 0xffff_0000) as u32
    } else {
        value % 0x1_0000
    }
}

/// The word at the signed distance `offset` from `base`, modulo 2^32.
pub open spec fn displaced(base: u32, offset: u32) -> u32 {
    wrap(base + signed(offset))
}

/// The two-operand operations of the integer and multiply/divide
/// instructions.
#[derive(Clone, Copy, Debug, PartialEq, Eq, Structural)]
pub enum AluOp {
    Add,
    Sub,
    Sll,
    Slt,
    Sltu,
    Xor,
    Srl,
    Sra,
    Or,
    And,
    Mul,
    Mulh,
    Mulhsu,
    Mulhu,
    Div,
    Divu,
    Rem,
    Remu,
}

/// The result of `op` on the operands `a` and `b`.
///
/// A shift by `n` places, `n` being the low five bits of `b`, multiplies
/// by `2^n` or divides by it, rounding down. Division by zero gives an
/// all-ones quotient and the dividend as remainder; the one signed division
/// that overflows gives the dividend as quotient and a zero remainder.
pub open spec fn alu(op: AluOp, a: u32, b: u32) -> u32 {
    match op {
        AluOp::Add => wrap(a + b),
        AluOp::Sub => wrap(a - b),
        AluOp::Sll => wrap(a * shift_factor(b)),
        AluOp::Slt => if signed(a) < signed(b) {
            1
        } else {
            0
        },
        AluOp::Sltu => if a < b {
            1
        } else {
            0
        },
        AluOp::Xor => a ^ b,
        AluOp::Srl => (a as int / shift_factor(b)) as u32,
        AluOp::Sra => wrap(signed(a) / shift_factor(b)),
        AluOp::Or => a | b,
        AluOp::And => a & b,
        AluOp::Mul => wrap(signed(a) * signed(b)),
        AluOp::Mulh => wrap((signed(a) * signed(b)) / 0x1_0000_0000),
        AluOp::Mulhsu => wrap((signed(a) * b) / 0x1_0000_0000),
        AluOp::Mulhu => wrap((a * b) / 0x1_0000_0000),
        AluOp::Div => if b == 0 {
            0xffff_ffff
        } else if a == 0x8000_0000 && b == 0xffff_ffff {
            0x8000_0000
        } else {
            wrap(quotient_toward_zero(signed(a), signed(b)))
        },
        AluOp::Divu => if b == 0 {
            0xffff_ffff
        } else {
            a / b
        },
        AluOp::Rem => if b == 0 {
            a
        } else if a == 0x8000_0000 && b == 0xffff_ffff {
            0
        } else {
            wrap(remainder_toward_zero(signed(a), signed(b)))
        },
        AluOp::Remu => if b == 0 {
            a
        } else {
            a % b
        },
    }
}

/// Reading a word as `i32` gives its two's-complement value, and writing a
/// 32-bit signed value back as `u32` gives the word congruent to it.
proof fn lemma_signed_cast(a: u32)
    ensures
        (a as i32) as int == signed(a),
        ((a as i32) as i64) as int == signed(a),
        (a as i32) as u32 == a,
{
    assert((a as i32) as int == (if a < 0x8000_0000u32 {
        a as int
    } else {
        a as int - 0x1_0000_0000
    }) && ((a as i32) as i64) as int == (a as i32) as int && (a as i32) as u32 == a)
        by (bit_vector);
}

/// A signed 32-bit value, written as `u32`, is the word congruent to it.
proof fn lemma_wrap_i32(x: i32)
    ensures
        x as u32 == wrap(x as int),
        signed(x as u32) == x,
{
    assert(x as u32 == (if x < 0 {
        x as int + 0x1_0000_0000
    } else {
        x as int
    }) as u32 && (x as u32) as i32 == x) by (bit_vector);
    lemma_signed_cast(x as u32);
}

/// The product of two words as signed values and their product as unsigned
/// values differ by a multiple of 2^32.
proof fn lemma_signed_product(a: u32, b: u32)
    ensures
        wrap(signed(a) * signed(b)) == (a as int * b as int) % 0x1_0000_0000,
{
    let m: int = 0x1_0000_0000;
    let ka: int = if a < 0x8000_0000 {
        0
    } else {
        1
    };
    let kb: int = if b < 0x8000_0000 {
        0
    } else {
        1
    };
    let k: int = ka * kb * m - ka * b - kb * a;
    assert(signed(a) * signed(b) == m * k + a * b) by (nonlinear_arith)
        requires
            signed(a) == a - ka * m,
            signed(b) == b - kb * m,
            k == ka * kb * m - ka * b - kb * a,
    ;
    lemma_mod_multiples_vanish(k, a as int * b as int, m);
}

/// The low five bits of a word are the word modulo 32.
proof fn lemma_shift_amount(b: u32)
    ensures
        b & 0x1f == b % 32,
{
    assert(b & 0x1f == b % 32) by (bit_vector);
}

/// Signed less-than on words.
pub fn less_than_signed(a: u32, b: u32) -> (r: bool)
    ensures
        r == (signed(a) < signed(b)),
{
    proof {
        lemma_signed_cast(a);
        lemma_signed_cast(b);
    }
    #[verifier::truncate] (a as i32) < #[verifier::truncate] (b as i32)
}

/// Arithmetic right shift of `a` by the low five bits of `b`.
pub fn shift_right_signed(a: u32, b: u32) -> (r: u32)
    ensures
        r == alu(AluOp::Sra, a, b),
{
    let shift: u32 = b & 0x1f;
    proof {
        law_shift_bits(a, b);
    }
    let r: u32 = #[verifier::truncate] ((#[verifier::truncate] (a as i32) >> shift) as u32);
    assert(r == (a >> shift) | (if a & 0x8000_0000 != 0 {
        !(0xffff_ffffu32 >> shift)
    } else {
        0
    })) by (bit_vector)
        requires
            shift < 32,
            r == ((a as i32) >> shift) as u32,
    ;
    r
}

/// The high word of the 64-bit product of two signed words.
pub fn multiply_high(a: u32, b: u32) -> (r: u32)
    ensures
        r == alu(AluOp::Mulh, a, b),
{
    let x: i64 = #[verifier::truncate] (a as i32) as i64;
    let y: i64 = #[verifier::truncate] (b as i32) as i64;
    proof {
        lemma_signed_cast(a);
        lemma_signed_cast(b);
        assert(-0x4000_0000_0000_0000 < x * y <= 0x4000_0000_0000_0000) by (nonlinear_arith)
            requires
                -0x8000_0000 <= x < 0x8000_0000,
                -0x8000_0000 <= y < 0x8000_0000,
        ;
    }
    let p: i64 = x * y;
    let r: u32 = #[verifier::truncate] ((p >> 32) as u32);
    assert(r == ((p as int / 0x1_0000_0000) % 0x1_0000_0000) as u32) by (bit_vector)
        requires
            r == (p >> 32) as u32,
    ;
    r
}

/// The high word of the 64-bit product of a signed word `a` and an
/// unsigned word `b`.
pub fn multiply_high_signed_unsigned(a: u32, b: u32) -> (r: u32)
    ensures
        r == alu(AluOp::Mulhsu, a, b),
{
    let x: i64 = #[verifier::truncate] (a as i32) as i64;
    let y: i64 = b as i64;
    proof {
        lemma_signed_cast(a);
        assert(-0x8000_0000_0000_0000 < x * y < 0x8000_0000_0000_0000) by (nonlinear_arith)
            requires
                -0x8000_0000 <= x < 0x8000_0000,
                0 <= y < 0x1_0000_0000,
        ;
    }
    let p: i64 = x * y;
    let r: u32 = #[verifier::truncate] ((p >> 32) as u32);
    assert(r == ((p as int / 0x1_0000_0000) % 0x1_0000_0000) as u32) by (bit_vector)
        requires
            r == (p >> 32) as u32,
    ;
    r
}

/// The high word of the 64-bit product of two unsigned words.
pub fn multiply_high_unsigned(a: u32, b: u32) -> (r: u32)
    ensures
        r == alu(AluOp::Mulhu, a, b),
{
    let x: u64 = a as u64;
    let y: u64 = b as u64;
    proof {
        assert(0 <= x * y < 0x1_0000_0000_0000_0000) by (nonlinear_arith)
            requires
                0 <= x < 0x1_0000_0000,
                0 <= y < 0x1_0000_0000,
        ;
    }
    let p: u64 = x * y;
    let r: u32 = #[verifier::truncate] ((p >> 32) as u32);
    assert(r == ((p as int / 0x1_0000_0000) % 0x1_0000_0000) as u32) by (bit_vector)
        requires
            r == (p >> 32) as u32,
    ;
    r
}

/// Signed division, with the results the architecture fixes for a zero
/// divisor and for the quotient that does not fit.
pub fn divide_signed(a: u32, b: u32) -> (r: u32)
    ensures
        r == alu(AluOp::Div, a, b),
{
    if b == 0 {
        0xffff_ffff
    } else {
        let x: i32 = #[verifier::truncate] (a as i32);
        let y: i32 = #[verifier::truncate] (b as i32);
        proof {
            lemma_signed_cast(a);
            lemma_signed_cast(b);
            lemma_div_pos_is_pos(magnitude(x as int), magnitude(y as int));
            lemma_div_nonincreasing(magnitude(x as int), magnitude(y as int));
            assert(magnitude(x as int) / 1 == magnitude(x as int));
        }
        match x.checked_div(y) {
            Some(q) => {
                proof {
                    lemma_wrap_i32(q);
                }
                #[verifier::truncate] (q as u32)
            },
            // The host has no quotient: the least integer by -1.
            None => 0x8000_0000,
        }
    }
}

/// Signed remainder, with the results the architecture fixes for a zero
/// divisor and for the division that overflows.
pub fn remainder_signed(a: u32, b: u32) -> (r: u32)
    ensures
        r == alu(AluOp::Rem, a, b),
{
    if b == 0 {
        a
    } else {
        let x: i32 = #[verifier::truncate] (a as i32);
        let y: i32 = #[verifier::truncate] (b as i32);
        proof {
            lemma_signed_cast(a);
            lemma_signed_cast(b);
            lemma_mod_pos_bound(magnitude(x as int), magnitude(y as int));
            lemma_small_mod(0, magnitude(y as int) as nat);
        }
        match x.checked_rem(y) {
            Some(m) => {
                proof {
                    lemma_wrap_i32(m);
                }
                #[verifier::truncate] (m as u32)
            },
            // The host has no remainder: the least integer by -1.
            None => 0,
        }
    }
}

/// Computes `op` on `a` and `b`.
pub fn compute(op: AluOp, a: u32, b: u32) -> (r: u32)
    ensures
        r == alu(op, a, b),
{
    match op {
        AluOp::Add => a.wrapping_add(b),
        AluOp::Sub => a.wrapping_sub(b),
        AluOp::Sll => {
            let shift: u32 = b & 0x1f;
            proof {
                law_shift_bits(a, b);
            }
            a << shift
        },
        AluOp::Slt => if less_than_signed(a, b) {
            1
        } else {
            0
        },
        AluOp::Sltu => if a < b {
            1
        } else {
            0
        },
        AluOp::Xor => a ^ b,
        AluOp::Srl => {
            let shift: u32 = b & 0x1f;
            proof {
                law_shift_bits(a, b);
            }
            a >> shift
        },
        AluOp::Sra => shift_right_signed(a, b),
        AluOp::Or => a | b,
        AluOp::And => a & b,
        AluOp::Mul => {
            proof {
                lemma_signed_product(a, b);
            }
            a.wrapping_mul(b)
        },
        AluOp::Mulh => multiply_high(a, b),
        AluOp::Mulhsu => multiply_high_signed_unsigned(a, b),
        AluOp::Mulhu => multiply_high_unsigned(a, b),
        AluOp::Div => divide_signed(a, b),
        AluOp::Divu => if b == 0 {
            0xffff_ffff
        } else {
            a / b
        },
        AluOp::Rem => remainder_signed(a, b),
        AluOp::Remu => if b == 0 {
            a
        } else {
            a % b
        },
    }
}

/// Sign-extends the low byte of `value`.
pub fn extend_byte(value: u32) -> (r: u32)
    ensures
        r == sign_extend_byte(value),
{
    let r: u32 = #[verifier::truncate] ((#[verifier::truncate] (#[verifier::truncate] (value as u8)
        as i8)) as u32);
    assert(r == value % 0x100 + (if value % 0x100 >= 0x80 {
        0xffff_ff00u32
    } else {
        0u32
    })) by (bit_vector)
        requires
            r == ((value as u8) as i8) as u32,
    ;
    r
}

/// Sign-extends the low halfword of `value`.
pub fn extend_halfword(value: u32) -> (r: u32)
    ensures
        r == sign_extend_halfword(value),
{
    let r: u32 = #[verifier::truncate] ((#[verifier::truncate] (#[verifier::truncate] (value as u16)
        as i16)) as u32);
    assert(r == value % 0x1_0000 + (if value % 0x1_0000 >= 0x8000 {
        0xffff_0000u32
    } else {
        0u32
    })) by (bit_vector)
        requires
            r == ((value as u16) as i16) as u32,
    ;
    r
}

/// Adds the signed `offset` to `base`, modulo 2^32.
pub fn displace(base: u32, offset: u32) -> (r: u32)
    ensures
        r == displaced(base, offset),
{
    base.wrapping_add(offset)
}

/// Division by zero gives the all-ones quotient and the dividend as
/// remainder, signed and unsigned alike.
pub proof fn law_division_by_zero(a: u32)
    ensures
        alu(AluOp::Div, a, 0) == 0xffff_ffff,
        alu(AluOp::Divu, a, 0) == 0xffff_ffff,
        alu(AluOp::Rem, a, 0) == a,
        alu(AluOp::Remu, a, 0) == a,
{
}

/// Unsigned quotient and remainder make up the dividend, and the remainder
/// is below the divisor.
pub proof fn law_unsigned_division(a: u32, b: u32)
    requires
        b != 0,
    ensures
        alu(AluOp::Divu, a, b) * b + alu(AluOp::Remu, a, b) == a,
        alu(AluOp::Remu, a, b) < b,
{
    lemma_fundamental_div_mod(a as int, b as int);
    lemma_mod_pos_bound(a as int, b as int);
    assert(b * (a as int / b as int) == (a as int / b as int) * b) by (nonlinear_arith);
}

/// Signed quotient and remainder make up the dividend; the remainder is
/// smaller in magnitude than the divisor and, unless zero, has the sign of
/// the dividend. The one division whose quotient does not fit, that of the
/// least integer by -1, gives the least integer and the remainder zero.
pub proof fn law_signed_division(a: u32, b: u32)
    requires
        b != 0,
    ensures
        a == 0x8000_0000 && b == 0xffff_ffff ==> alu(AluOp::Div, a, b) == 0x8000_0000 && alu(
            AluOp::Rem,
            a,
            b,
        ) == 0,
        !(a == 0x8000_0000 && b == 0xffff_ffff) ==> signed(alu(AluOp::Div, a, b)) * signed(b)
            + signed(alu(AluOp::Rem, a, b)) == signed(a),
        magnitude(signed(alu(AluOp::Rem, a, b))) < magnitude(signed(b)),
        signed(alu(AluOp::Rem, a, b)) != 0 ==> (signed(alu(AluOp::Rem, a, b)) < 0) == (signed(a)
            < 0),
{
    if !(a == 0x8000_0000 && b == 0xffff_ffff) {
        let x = signed(a);
        let y = signed(b);
        let q = magnitude(x) / magnitude(y);
        let r = magnitude(x) % magnitude(y);
        lemma_fundamental_div_mod(magnitude(x), magnitude(y));
        lemma_mod_pos_bound(magnitude(x), magnitude(y));
        lemma_div_pos_is_pos(magnitude(x), magnitude(y));
        lemma_div_nonincreasing(magnitude(x), magnitude(y));
        if magnitude(y) > 1 {
            assert(q * 2 <= magnitude(x)) by (nonlinear_arith)
                requires
                    magnitude(x) == magnitude(y) * q + r,
                    magnitude(y) >= 2,
                    q >= 0,
                    r >= 0,
            ;
        }
        assert(quotient_toward_zero(x, y) * y + remainder_toward_zero(x, y) == x)
            by (nonlinear_arith)
            requires
                magnitude(x) == magnitude(y) * q + r,
                quotient_toward_zero(x, y) == (if (x < 0) == (y < 0) {
                    q
                } else {
                    -q
                }),
                remainder_toward_zero(x, y) == (if x < 0 {
                    -r
                } else {
                    r
                }),
                magnitude(x) == (if x < 0 {
                    -x
                } else {
                    x
                }),
                magnitude(y) == (if y < 0 {
                    -y
                } else {
                    y
                }),
        ;
    }
}

/// The high word and the low word of a multiplication make up the full
/// 64-bit product: of the two signed values for `MULH`, of the signed and
/// the unsigned value for `MULHSU`, of the two unsigned values for `MULHU`.
/// The low word is the same for all three.
pub proof fn law_full_product(a: u32, b: u32)
    ensures
        signed(alu(AluOp::Mulh, a, b)) * 0x1_0000_0000 + alu(AluOp::Mul, a, b) == signed(a)
            * signed(b),
        signed(alu(AluOp::Mulhsu, a, b)) * 0x1_0000_0000 + alu(AluOp::Mul, a, b) == signed(a) * b,
        alu(AluOp::Mulhu, a, b) * 0x1_0000_0000 + alu(AluOp::Mul, a, b) == a * b,
{
    let m: int = 0x1_0000_0000;
    lemma_signed_product(a, b);
    // signed by signed
    let ss = signed(a) * signed(b);
    assert(-0x4000_0000_0000_0000 < ss <= 0x4000_0000_0000_0000) by (nonlinear_arith)
        requires
            ss == signed(a) * signed(b),
            -0x8000_0000 <= signed(a) < 0x8000_0000,
            -0x8000_0000 <= signed(b) < 0x8000_0000,
    ;
    lemma_fundamental_div_mod(ss, m);
    // signed by unsigned
    let su = signed(a) * b;
    assert(-0x8000_0000_0000_0000 < su < 0x8000_0000_0000_0000) by (nonlinear_arith)
        requires
            su == signed(a) * b,
            -0x8000_0000 <= signed(a) < 0x8000_0000,
            0 <= b < 0x1_0000_0000,
    ;
    lemma_fundamental_div_mod(su, m);
    let ka: int = if a < 0x8000_0000 {
        0
    } else {
        1
    };
    assert(su == m * (-ka * b) + a * b) by (nonlinear_arith)
        requires
            su == signed(a) * b,
            signed(a) == a - ka * m,
    ;
    lemma_mod_multiples_vanish(-ka * b, a as int * b as int, m);
    // unsigned by unsigned
    let uu = a as int * b as int;
    assert(0 <= uu < 0x1_0000_0000_0000_0000) by (nonlinear_arith)
        requires
            uu == a * b,
            0 <= a < 0x1_0000_0000,
            0 <= b < 0x1_0000_0000,
    ;
    lemma_fundamental_div_mod(uu, m);
}

/// The shift factor of `b` is two to the power of `b` modulo 32.
pub proof fn law_shift_factor(b: u32)
    ensures
        shift_factor(b) == pow2((b % 32) as nat),
{
    lemma2_to64();
}

/// A left shift by `shift` places multiplies by `2^shift`, modulo 2^32.
proof fn lemma_shift_left(a: u32, shift: u32)
    requires
        shift < 32,
    ensures
        a << shift == wrap(a * pow2(shift as nat)),
    decreases shift,
{
    if shift == 0 {
        assert(a << 0u32 == a) by (bit_vector);
        lemma2_to64();
        assert(a << shift == a);
    } else {
        let less: u32 = (shift - 1) as u32;
        let h: u32 = a << less;
        lemma_shift_left(a, less);
        assert(a << shift == (2 * h) % 0x1_0000_0000) by (bit_vector)
            requires
                h == a << less,
                less == shift - 1,
                0 < shift < 32,
        ;
        let p = pow2(less as nat) as int;
        lemma_pow2_unfold(shift as nat);
        lemma_mul_mod_noop_right(2, a * p, 0x1_0000_0000);
        assert(2 * (a * p) == a * (2 * p)) by (nonlinear_arith);
    }
}

/// An arithmetic right shift by `shift` places divides the signed value by
/// `2^shift`, rounding down.
proof fn lemma_shift_right_arithmetic(a: u32, shift: u32)
    requires
        shift < 32,
    ensures
        signed(shift_right_arithmetic(a, shift)) == signed(a) / (pow2(shift as nat) as int),
    decreases shift,
{
    if shift == 0 {
        assert(shift_right_arithmetic(a, 0) == a) by (bit_vector);
        lemma2_to64();
    } else {
        let less: u32 = (shift - 1) as u32;
        let h: u32 = shift_right_arithmetic(a, less);
        lemma_shift_right_arithmetic(a, less);
        assert(shift_right_arithmetic(a, shift) == h / 2 + (if h >= 0x8000_0000 {
            0x8000_0000u32
        } else {
            0u32
        })) by (bit_vector)
            requires
                h == shift_right_arithmetic(a, less),
                less == shift - 1,
                0 < shift < 32,
        ;
        // One more place halves the signed value, rounding down.
        assert(signed(shift_right_arithmetic(a, shift)) == signed(h) / 2);
        let p = pow2(less as nat) as int;
        lemma_pow2_pos(less as nat);
        lemma_pow2_unfold(shift as nat);
        let x = signed(a);
        let q = x / p;
        lemma_fundamental_div_mod(x, p);
        lemma_fundamental_div_mod(q, 2);
        let r = p * (q % 2) + x % p;
        assert(x == (q / 2) * (2 * p) + r && 0 <= r < 2 * p) by (nonlinear_arith)
            requires
                x == p * q + x % p,
                q == 2 * (q / 2) + q % 2,
                0 <= x % p < p,
                0 <= q % 2 < 2,
                r == p * (q % 2) + x % p,
        ;
        lemma_fundamental_div_mod_converse(x, 2 * p, q / 2, r);
    }
}

/// The shifts in bits: `SLL` and `SRL` move the bits of `a` by the shift
/// amount and fill with zeros; `SRA` moves them right and fills with
/// copies of the sign bit.
pub proof fn law_shift_bits(a: u32, b: u32)
    ensures
        b % 32 == b & 0x1f,
        alu(AluOp::Sll, a, b) == a << (b % 32),
        alu(AluOp::Srl, a, b) == a >> (b % 32),
        alu(AluOp::Sra, a, b) == shift_right_arithmetic(a, b % 32),
{
    let shift: u32 = b % 32;
    law_shift_factor(b);
    lemma_shift_amount(b);
    lemma_shift_left(a, shift);
    lemma_u32_shr_is_div(a, shift);
    lemma_shift_right_arithmetic(a, shift);
    lemma_pow2_pos(shift as nat);
    let sra = shift_right_arithmetic(a, shift);
}

} // verus!
