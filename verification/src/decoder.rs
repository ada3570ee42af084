//! Instruction decoding: the fields of a 32-bit instruction word, its opcode
//! class, and the instruction it encodes.

use vstd::prelude::*;
use crate::alu::{signed, wrap};

verus! {

/// Index of a general register, in `0..32`.
pub type Rindex = usize;

/// Index of a destination register.
pub type RDindex = Rindex;

/// Index of a first source register.
pub type RS1index = Rindex;

/// Index of a second source register.
pub type RS2index = Rindex;

/// Value of a first source register.
pub type RS1value = u32;

/// Value of a second source register.
pub type RS2value = u32;

/// An I-immediate, sign-extended to a word.
pub type Iimmediate = u32;

/// An S-immediate, sign-extended to a word.
pub type Simmediate = u32;

/// A B-immediate, sign-extended to a word.
pub type Bimmediate = u32;

/// A U-immediate: a word with its low twelve bits clear.
pub type Uimmediate = u32;

/// A J-immediate, sign-extended to a word.
pub type Jimmediate = u32;

/// A three-bit function field.
pub type Funct3 = u32;

/// A seven-bit function field.
pub type Funct7 = u32;

/// The number that the bits of `w` from the one of weight `unit` upward
/// spell, reduced modulo `span`: with `unit = 2^lo` and `span = 2^n`, the
/// `n`-bit field of `w` whose lowest bit is bit `lo`.
pub open spec fn field(w: u32, unit: int, span: int) -> int {
    (w as int / unit) % span
}

/// Bits 11..7: the destination register.
pub open spec fn rd_field(w: u32) -> Rindex {
    field(w, 0x80, 0x20) as usize
}

/// Bits 14..12.
pub open spec fn funct3_field(w: u32) -> Funct3 {
    field(w, 0x1000, 0x8) as u32
}

/// Bits 19..15: the first source register.
pub open spec fn rs1_field(w: u32) -> Rindex {
    field(w, 0x8000, 0x20) as usize
}

/// Bits 24..20: the second source register.
pub open spec fn rs2_field(w: u32) -> Rindex {
    field(w, 0x10_0000, 0x20) as usize
}

/// Bits 31..25.
pub open spec fn funct7_field(w: u32) -> Funct7 {
    field(w, 0x200_0000, 0x80) as u32
}

/// Bit 31, the sign of every signed immediate: 1 or 0.
pub open spec fn sign_bit(w: u32) -> int {
    field(w, 0x8000_0000, 2)
}

/// The value of the I-immediate: bits 30..20 of `w` at 10..0, and bit 31
/// of `w` as the sign, at every place from 11 up.
pub open spec fn i_offset(w: u32) -> int {
    field(w, 0x10_0000, 0x800) - 0x800 * sign_bit(w)
}

/// The value of the S-immediate: bits 11..7 of `w` at 4..0, bits 30..25 at
/// 10..5, and bit 31 as the sign.
pub open spec fn s_offset(w: u32) -> int {
    field(w, 0x80, 0x20) + 0x20 * field(w, 0x200_0000, 0x40) - 0x800 * sign_bit(w)
}

/// The value of the B-immediate: bits 11..8 of `w` at 4..1, bits 30..25 at
/// 10..5, bit 7 at 11, and bit 31 as the sign. Always even.
pub open spec fn b_offset(w: u32) -> int {
    2 * field(w, 0x100, 0x10) + 0x20 * field(w, 0x200_0000, 0x40) + 0x800 * field(w, 0x80, 2)
        - 0x1000 * sign_bit(w)
}

/// The value of the J-immediate: bits 30..21 of `w` at 10..1, bit 20 at 11,
/// bits 19..12 in place, and bit 31 as the sign. Always even.
pub open spec fn j_offset(w: u32) -> int {
    2 * field(w, 0x20_0000, 0x400) + 0x800 * field(w, 0x10_0000, 2) + 0x1000 * field(
        w,
        0x1000,
        0x100,
    ) - 0x10_0000 * sign_bit(w)
}

/// The I-immediate, sign-extended to a word.
pub open spec fn i_immediate(w: u32) -> Iimmediate {
    wrap(i_offset(w))
}

/// The S-immediate, sign-extended to a word.
pub open spec fn s_immediate(w: u32) -> Simmediate {
    wrap(s_offset(w))
}

/// The B-immediate, sign-extended to a word.
pub open spec fn b_immediate(w: u32) -> Bimmediate {
    wrap(b_offset(w))
}

/// The U-immediate: bits 31..12 of `w` in place, the low twelve bits clear.
pub open spec fn u_immediate(w: u32) -> Uimmediate {
    (0x1000 * field(w, 0x1000, 0x10_0000)) as u32
}

/// The J-immediate, sign-extended to a word.
pub open spec fn j_immediate(w: u32) -> Jimmediate {
    wrap(j_offset(w))
}

/// The fields of a word, as shifts and masks find them.
proof fn lemma_fields(w: u32)
    ensures
        (w >> 7) & 0b1_1111 == field(w, 0x80, 0x20) < 32,
        (w >> 15) & 0b1_1111 == field(w, 0x8000, 0x20) < 32,
        (w >> 20) & 0b1_1111 == field(w, 0x10_0000, 0x20) < 32,
        (w >> 12) & 0b111 == field(w, 0x1000, 0x8) < 8,
        (w >> 25) & 0b111_1111 == field(w, 0x200_0000, 0x80) < 128,
        (w >> 2) & 0b1_1111 == field(w, 4, 0x20) < 32,
        (w & 0b11 == 0b11) == (w % 4 == 3),
        (w & 0x4000_0000 != 0) == (field(w, 0x4000_0000, 2) != 0),
{
    assert((w >> 7) & 0b1_1111 == (w / 0x80) % 0x20 < 32 && (w >> 15) & 0b1_1111 == (w / 0x8000)
        % 0x20 < 32 && (w >> 20) & 0b1_1111 == (w / 0x10_0000) % 0x20 < 32 && (w >> 12) & 0b111
        == (w / 0x1000) % 0x8 < 8 && (w >> 25) & 0b111_1111 == (w / 0x200_0000) % 0x80 < 128 && (w
        >> 2) & 0b1_1111 == (w / 4) % 0x20 < 32 && (w & 0b11 == 0b11) == (w % 4 == 3) && (w
        & 0x4000_0000 != 0) == ((w / 0x4000_0000) % 2 != 0)) by (bit_vector);
}

/// The I-immediate of `instruction`: an arithmetic shift brings bits 31..20
/// down and copies the sign.
pub fn immediate_i(instruction: u32) -> (imm: Iimmediate)
    ensures
        imm == i_immediate(instruction),
{
    let signed_word: i32 = #[verifier::truncate] (instruction as i32);
    let imm: u32 = #[verifier::truncate] ((signed_word >> 20) as u32);
    assert(imm == (instruction / 0x10_0000) % 0x800 + 0xffff_f800 * (instruction / 0x8000_0000))
        by (bit_vector)
        requires
            imm == ((instruction as i32) >> 20) as u32,
    ;
    imm
}

/// The S-immediate of `instruction`: the upper seven bits are shifted down
/// with the sign, the lower five are masked in.
pub fn immediate_s(instruction: u32) -> (imm: Simmediate)
    ensures
        imm == s_immediate(instruction),
{
    let upper_bits: i32 = #[verifier::truncate] ((instruction & 0xfe00_0000) as i32);
    let upper: u32 = #[verifier::truncate] ((upper_bits >> 20) as u32);
    let imm: u32 = upper | ((instruction >> 7) & 0b1_1111);
    assert(imm == (instruction / 0x80) % 0x20 + 0x20 * ((instruction / 0x200_0000) % 0x40)
        + 0xffff_f800 * (instruction / 0x8000_0000)) by (bit_vector)
        requires
            imm == ((((instruction & 0xfe00_0000) as i32) >> 20) as u32) | ((instruction >> 7)
                & 0b1_1111),
    ;
    imm
}

/// The B-immediate of `instruction`, gathered from its four places.
pub fn immediate_b(instruction: u32) -> (imm: Bimmediate)
    ensures
        imm == b_immediate(instruction),
{
    let top: i32 = #[verifier::truncate] ((instruction & 0x8000_0000) as i32);
    let sign: u32 = #[verifier::truncate] ((top >> 19) as u32);
    let bits_4_1: u32 = (instruction >> 7) & 0b1_1110;
    let bits_10_5: u32 = (instruction >> 20) & 0b111_1110_0000;
    let bits_11: u32 = (instruction & 0b1000_0000) << 4;
    let imm: u32 = sign | bits_11 | bits_10_5 | bits_4_1;
    assert(imm == 2 * ((instruction / 0x100) % 0x10) + 0x20 * ((instruction / 0x200_0000) % 0x40)
        + 0x800 * ((instruction / 0x80) % 2) + 0xffff_f000 * (instruction / 0x8000_0000))
        by (bit_vector)
        requires
            imm == ((((instruction & 0x8000_0000) as i32) >> 19) as u32) | ((instruction
                & 0b1000_0000) << 4) | ((instruction >> 20) & 0b111_1110_0000) | ((instruction
                >> 7) & 0b1_1110),
    ;
    imm
}

/// The U-immediate of `instruction`.
pub fn immediate_u(instruction: u32) -> (imm: Uimmediate)
    ensures
        imm == u_immediate(instruction),
{
    let imm: u32 = instruction & 0b1111_1111_1111_1111_1111_0000_0000_0000;
    assert(imm == 0x1000 * (instruction / 0x1000) && instruction / 0x1000 < 0x10_0000)
        by (bit_vector)
        requires
            imm == instruction & 0b1111_1111_1111_1111_1111_0000_0000_0000,
    ;
    imm
}

/// The J-immediate of `instruction`, gathered from its four places.
pub fn immediate_j(instruction: u32) -> (imm: Jimmediate)
    ensures
        imm == j_immediate(instruction),
{
    let top: i32 = #[verifier::truncate] ((instruction & 0x8000_0000) as i32);
    let sign: u32 = #[verifier::truncate] ((top >> 11) as u32);
    let bits_10_1: u32 = (instruction >> 20) & 0b111_1111_1110;
    let bits_11: u32 = (instruction >> 9) & 0b1000_0000_0000;
    let bits_19_12: u32 = instruction & 0b1111_1111_0000_0000_0000;
    let imm: u32 = sign | bits_19_12 | bits_11 | bits_10_1;
    assert(imm == 2 * ((instruction / 0x20_0000) % 0x400) + 0x800 * ((instruction / 0x10_0000) % 2)
        + 0x1000 * ((instruction / 0x1000) % 0x100) + 0xfff0_0000 * (instruction / 0x8000_0000))
        by (bit_vector)
        requires
            imm == ((((instruction & 0x8000_0000) as i32) >> 11) as u32) | (instruction
                & 0b1111_1111_0000_0000_0000) | ((instruction >> 9) & 0b1000_0000_0000) | ((
            instruction >> 20) & 0b111_1111_1110),
    ;
    imm
}

/// The first source register of `instruction`.
pub fn rs1(instruction: u32) -> (index: RS1index)
    ensures
        index == rs1_field(instruction),
        index < 32,
{
    proof {
        lemma_fields(instruction);
    }
    ((instruction >> 15) & 0b1_1111) as RS1index
}

/// The second source register of `instruction`.
pub fn rs2(instruction: u32) -> (index: RS2index)
    ensures
        index == rs2_field(instruction),
        index < 32,
{
    proof {
        lemma_fields(instruction);
    }
    ((instruction >> 20) & 0b1_1111) as RS2index
}

/// The destination register of `instruction`.
pub fn rd(instruction: u32) -> (index: RDindex)
    ensures
        index == rd_field(instruction),
        index < 32,
{
    proof {
        lemma_fields(instruction);
    }
    ((instruction >> 7) & 0b1_1111) as RDindex
}

/// The `funct3` field of `instruction`.
pub fn funct3(instruction: u32) -> (f: Funct3)
    ensures
        f == funct3_field(instruction),
        f < 8,
{
    proof {
        lemma_fields(instruction);
    }
    (instruction >> 12) & 0b111
}

/// The `funct7` field of `instruction`.
pub fn funct7(instruction: u32) -> (f: Funct7)
    ensures
        f == funct7_field(instruction),
        f < 128,
{
    proof {
        lemma_fields(instruction);
    }
    (instruction >> 25) & 0b111_1111
}

/// Every sign-extended immediate has, as a two's-complement word, the
/// value that its encoding spells. So each lies within the range of its
/// encoding, branch and jump offsets are even, and the upper immediate has
/// its low twelve bits clear.
pub proof fn law_immediate_values(w: u32)
    ensures
        signed(i_immediate(w)) == i_offset(w),
        signed(s_immediate(w)) == s_offset(w),
        signed(b_immediate(w)) == b_offset(w),
        signed(j_immediate(w)) == j_offset(w),
        -0x800 <= i_offset(w) < 0x800,
        -0x800 <= s_offset(w) < 0x800,
        -0x1000 <= b_offset(w) < 0x1000,
        b_offset(w) % 2 == 0,
        -0x10_0000 <= j_offset(w) < 0x10_0000,
        j_offset(w) % 2 == 0,
        u_immediate(w) % 0x1000 == 0,
{
}

/// The 32 opcode classes of the base encoding, in the order of bits 6..2
/// of the instruction word.
#[derive(Clone, Copy, Debug, PartialEq, Eq, Structural)]
pub enum OpCode {
    LOAD,
    LOADFP,
    CUSTOM0,
    MISCMEM,
    OPIMM,
    AUIPC,
    OPIMM32,
    LEN48,
    STORE,
    STOREFP,
    CUSTOM1,
    AMO,
    OP,
    LUI,
    OP32,
    LEN64,
    MADD,
    MSUB,
    NMSUB,
    NMADD,
    OPFP,
    RESERVED1,
    CUSTOM2,
    LEN482,
    BRANCH,
    JALR,
    RESERVED2,
    JAL,
    SYSTEM,
    RESERVED3,
    CUSTOM3,
    LEN80,
}

/// A decoded instruction. Each variant carries the operand slots of its
/// encoding; immediates are sign-extended words.
///
/// The Zicsr variants carry the I-immediate, whose low twelve bits are the
/// CSR address. In `CSRRWI`, `CSRRSI` and `CSRRCI` the second slot is not a
/// register index but a five-bit unsigned immediate.
#[derive(Clone, Copy, Debug, PartialEq, Eq, Structural)]
pub enum Instruction {
    /* RV32I */
    LUI(RDindex, Uimmediate),
    AUIPC(RDindex, Uimmediate),
    JAL(RDindex, Jimmediate),
    JALR(RDindex, RS1index, Iimmediate),
    BEQ(RS1index, RS2index, Bimmediate),
    BNE(RS1index, RS2index, Bimmediate),
    BLT(RS1index, RS2index, Bimmediate),
    BGE(RS1index, RS2index, Bimmediate),
    BLTU(RS1index, RS2index, Bimmediate),
    BGEU(RS1index, RS2index, Bimmediate),
    LB(RDindex, RS1index, Iimmediate),
    LH(RDindex, RS1index, Iimmediate),
    LW(RDindex, RS1index, Iimmediate),
    LBU(RDindex, RS1index, Iimmediate),
    LHU(RDindex, RS1index, Iimmediate),
    SB(RS1index, RS2index, Simmediate),
    SH(RS1index, RS2index, Simmediate),
    SW(RS1index, RS2index, Simmediate),
    ADDI(RDindex, RS1index, Iimmediate),
    SLTI(RDindex, RS1index, Iimmediate),
    SLTIU(RDindex, RS1index, Iimmediate),
    XORI(RDindex, RS1index, Iimmediate),
    ORI(RDindex, RS1index, Iimmediate),
    ANDI(RDindex, RS1index, Iimmediate),
    SLLI(RDindex, RS1index, Iimmediate),
    SRLI(RDindex, RS1index, Iimmediate),
    SRAI(RDindex, RS1index, Iimmediate),
    ADD(RDindex, RS1index, RS2index),
    SUB(RDindex, RS1index, RS2index),
    SLL(RDindex, RS1index, RS2index),
    SLT(RDindex, RS1index, RS2index),
    SLTU(RDindex, RS1index, RS2index),
    XOR(RDindex, RS1index, RS2index),
    SRL(RDindex, RS1index, RS2index),
    SRA(RDindex, RS1index, RS2index),
    OR(RDindex, RS1index, RS2index),
    AND(RDindex, RS1index, RS2index),
    FENCE(RDindex, RS1index, Iimmediate),
    ECALL(),
    EBREAK(),
    MRET(),
    /* Zicsr */
    CSRRW(RDindex, RS1index, Iimmediate),
    CSRRS(RDindex, RS1index, Iimmediate),
    CSRRC(RDindex, RS1index, Iimmediate),
    CSRRWI(RDindex, RS1index, Iimmediate),
    CSRRSI(RDindex, RS1index, Iimmediate),
    CSRRCI(RDindex, RS1index, Iimmediate),
    /* M */
    MUL(RDindex, RS1index, RS2index),
    MULH(RDindex, RS1index, RS2index),
    MULHSU(RDindex, RS1index, RS2index),
    MULHU(RDindex, RS1index, RS2index),
    DIV(RDindex, RS1index, RS2index),
    DIVU(RDindex, RS1index, RS2index),
    REM(RDindex, RS1index, RS2index),
    REMU(RDindex, RS1index, RS2index),
}

/// Why a word is not an instruction of this core.
#[derive(Clone, Copy, Debug, PartialEq, Eq, Structural)]
pub enum DecodeError {
    /// The two low bits are not `11`: not a 32-bit base encoding.
    NotBaseEncoding,
    /// The opcode class is not implemented.
    UnimplementedOpcode,
    /// The class is implemented, but it assigns nothing to this `funct3`.
    InvalidFunct3,
    /// An `OP` word that selects between two base operations by `funct7`
    /// and holds neither of their two values.
    InvalidFunct7,
    /// A `SYSTEM` word with `funct3 = 0` whose immediate names no
    /// instruction.
    InvalidSystemImmediate,
}

/// The three shapes of operand slots that a variant can carry besides none:
/// a register and an immediate, two registers and an immediate, or three
/// registers.
pub enum Operands {
    Bare,
    RegImm(Rindex, u32),
    RegRegImm(Rindex, Rindex, u32),
    RegRegReg(Rindex, Rindex, Rindex),
}

impl Instruction {
    /// The operand slots of the instruction, in the order it carries them.
    pub open spec fn operands(self) -> Operands {
        match self {
            Instruction::LUI(a, i) | Instruction::AUIPC(a, i) | Instruction::JAL(a, i) => {
                Operands::RegImm(a, i)
            },
            Instruction::JALR(a, b, i)
            | Instruction::BEQ(a, b, i)
            | Instruction::BNE(a, b, i)
            | Instruction::BLT(a, b, i)
            | Instruction::BGE(a, b, i)
            | Instruction::BLTU(a, b, i)
            | Instruction::BGEU(a, b, i)
            | Instruction::LB(a, b, i)
            | Instruction::LH(a, b, i)
            | Instruction::LW(a, b, i)
            | Instruction::LBU(a, b, i)
            | Instruction::LHU(a, b, i)
            | Instruction::SB(a, b, i)
            | Instruction::SH(a, b, i)
            | Instruction::SW(a, b, i)
            | Instruction::ADDI(a, b, i)
            | Instruction::SLTI(a, b, i)
            | Instruction::SLTIU(a, b, i)
            | Instruction::XORI(a, b, i)
            | Instruction::ORI(a, b, i)
            | Instruction::ANDI(a, b, i)
            | Instruction::SLLI(a, b, i)
            | Instruction::SRLI(a, b, i)
            | Instruction::SRAI(a, b, i)
            | Instruction::FENCE(a, b, i)
            | Instruction::CSRRW(a, b, i)
            | Instruction::CSRRS(a, b, i)
            | Instruction::CSRRC(a, b, i)
            | Instruction::CSRRWI(a, b, i)
            | Instruction::CSRRSI(a, b, i)
            | Instruction::CSRRCI(a, b, i) => Operands::RegRegImm(a, b, i),
            Instruction::ADD(a, b, c)
            | Instruction::SUB(a, b, c)
            | Instruction::SLL(a, b, c)
            | Instruction::SLT(a, b, c)
            | Instruction::SLTU(a, b, c)
            | Instruction::XOR(a, b, c)
            | Instruction::SRL(a, b, c)
            | Instruction::SRA(a, b, c)
            | Instruction::OR(a, b, c)
            | Instruction::AND(a, b, c)
            | Instruction::MUL(a, b, c)
            | Instruction::MULH(a, b, c)
            | Instruction::MULHSU(a, b, c)
            | Instruction::MULHU(a, b, c)
            | Instruction::DIV(a, b, c)
            | Instruction::DIVU(a, b, c)
            | Instruction::REM(a, b, c)
            | Instruction::REMU(a, b, c) => Operands::RegRegReg(a, b, c),
            Instruction::ECALL() | Instruction::EBREAK() | Instruction::MRET() => Operands::Bare,
        }
    }

    /// Every register slot holds an index below 32.
    pub open spec fn wf(self) -> bool {
        match self.operands() {
            Operands::Bare => true,
            Operands::RegImm(a, _) => a < 32,
            Operands::RegRegImm(a, b, _) => a < 32 && b < 32,
            Operands::RegRegReg(a, b, c) => a < 32 && b < 32 && c < 32,
        }
    }

    /// The six instructions of the CSR extension.
    pub open spec fn zicsr(self) -> bool {
        self is CSRRW || self is CSRRS || self is CSRRC || self is CSRRWI || self is CSRRSI
            || self is CSRRCI
    }

    /// The eight instructions of the multiply/divide extension.
    pub open spec fn multiply_divide(self) -> bool {
        self is MUL || self is MULH || self is MULHSU || self is MULHU || self is DIV
            || self is DIVU || self is REM || self is REMU
    }

    /// Whether the instruction belongs to the CSR extension.
    pub fn is_zicsr(&self) -> (r: bool)
        ensures
            r == self.zicsr(),
    {
        matches!(
            self,
            Self::CSRRCI(..)
                | Self::CSRRW(..)
                | Self::CSRRS(..)
                | Self::CSRRC(..)
                | Self::CSRRWI(..)
                | Self::CSRRSI(..)
        )
    }

    /// Whether the instruction belongs to the multiply/divide extension.
    pub fn is_m(&self) -> (r: bool)
        ensures
            r == self.multiply_divide(),
    {
        matches!(
            self,
            Self::MUL(..)
                | Self::MULH(..)
                | Self::MULHSU(..)
                | Self::MULHU(..)
                | Self::DIV(..)
                | Self::DIVU(..)
                | Self::REM(..)
                | Self::REMU(..)
        )
    }
}

/// The opcode class with number `index`, counted in the order of bits 6..2.
pub open spec fn class_at(index: u32) -> OpCode {
    if index == 0 {
        OpCode::LOAD
    } else if index == 1 {
        OpCode::LOADFP
    } else if index == 2 {
        OpCode::CUSTOM0
    } else if index == 3 {
        OpCode::MISCMEM
    } else if index == 4 {
        OpCode::OPIMM
    } else if index == 5 {
        OpCode::AUIPC
    } else if index == 6 {
        OpCode::OPIMM32
    } else if index == 7 {
        OpCode::LEN48
    } else if index == 8 {
        OpCode::STORE
    } else if index == 9 {
        OpCode::STOREFP
    } else if index == 10 {
        OpCode::CUSTOM1
    } else if index == 11 {
        OpCode::AMO
    } else if index == 12 {
        OpCode::OP
    } else if index == 13 {
        OpCode::LUI
    } else if index == 14 {
        OpCode::OP32
    } else if index == 15 {
        OpCode::LEN64
    } else if index == 16 {
        OpCode::MADD
    } else if index == 17 {
        OpCode::MSUB
    } else if index == 18 {
        OpCode::NMSUB
    } else if index == 19 {
        OpCode::NMADD
    } else if index == 20 {
        OpCode::OPFP
    } else if index == 21 {
        OpCode::RESERVED1
    } else if index == 22 {
        OpCode::CUSTOM2
    } else if index == 23 {
        OpCode::LEN482
    } else if index == 24 {
        OpCode::BRANCH
    } else if index == 25 {
        OpCode::JALR
    } else if index == 26 {
        OpCode::RESERVED2
    } else if index == 27 {
        OpCode::JAL
    } else if index == 28 {
        OpCode::SYSTEM
    } else if index == 29 {
        OpCode::RESERVED3
    } else if index == 30 {
        OpCode::CUSTOM3
    } else {
        OpCode::LEN80
    }
}

/// The opcode class of a word: the class numbered by its bits 6..2.
pub open spec fn opcode_class(w: u32) -> OpCode {
    class_at(field(w, 4, 0x20) as u32)
}

/// The classes that this core decodes.
pub open spec fn implemented(op: OpCode) -> bool {
    op is LOAD || op is MISCMEM || op is OPIMM || op is AUIPC || op is STORE || op is OP
        || op is LUI || op is BRANCH || op is JALR || op is JAL || op is SYSTEM
}

/// The opcode class of `instruction`, found from bits 6..5 and then bits
/// 4..2.
pub fn get_opcode(instruction: u32) -> (op: OpCode)
    ensures
        op == opcode_class(instruction),
{
    let upper: u32 = (instruction >> 5) & 0b11;
    let lower: u32 = (instruction >> 2) & 0b111;
    assert(upper < 4 && lower < 8 && (instruction / 4) % 0x20 == upper * 8 + lower) by (bit_vector)
        requires
            upper == (instruction >> 5) & 0b11,
            lower == (instruction >> 2) & 0b111,
    ;
    match upper {
        0b00 => match lower {
            0b000 => OpCode::LOAD,
            0b001 => OpCode::LOADFP,
            0b010 => OpCode::CUSTOM0,
            0b011 => OpCode::MISCMEM,
            0b100 => OpCode::OPIMM,
            0b101 => OpCode::AUIPC,
            0b110 => OpCode::OPIMM32,
            _ => OpCode::LEN48,
        },
        0b01 => match lower {
            0b000 => OpCode::STORE,
            0b001 => OpCode::STOREFP,
            0b010 => OpCode::CUSTOM1,
            0b011 => OpCode::AMO,
            0b100 => OpCode::OP,
            0b101 => OpCode::LUI,
            0b110 => OpCode::OP32,
            _ => OpCode::LEN64,
        },
        0b10 => match lower {
            0b000 => OpCode::MADD,
            0b001 => OpCode::MSUB,
            0b010 => OpCode::NMSUB,
            0b011 => OpCode::NMADD,
            0b100 => OpCode::OPFP,
            0b101 => OpCode::RESERVED1,
            0b110 => OpCode::CUSTOM2,
            _ => OpCode::LEN482,
        },
        _ => match lower {
            0b000 => OpCode::BRANCH,
            0b001 => OpCode::JALR,
            0b010 => OpCode::RESERVED2,
            0b011 => OpCode::JAL,
            0b100 => OpCode::SYSTEM,
            0b101 => OpCode::RESERVED3,
            0b110 => OpCode::CUSTOM3,
            _ => OpCode::LEN80,
        },
    }
}

/// What a `LOAD` word encodes.
pub open spec fn decoded_load(w: u32) -> Result<Instruction, DecodeError> {
    let rd = rd_field(w);
    let rs1 = rs1_field(w);
    let imm = i_immediate(w);
    let f3 = funct3_field(w);
    if f3 == 0 {
        Ok(Instruction::LB(rd, rs1, imm))
    } else if f3 == 1 {
        Ok(Instruction::LH(rd, rs1, imm))
    } else if f3 == 2 {
        Ok(Instruction::LW(rd, rs1, imm))
    } else if f3 == 4 {
        Ok(Instruction::LBU(rd, rs1, imm))
    } else if f3 == 5 {
        Ok(Instruction::LHU(rd, rs1, imm))
    } else {
        Err(DecodeError::InvalidFunct3)
    }
}

/// What an `OP-IMM` word encodes. The two right shifts share `funct3 = 5`
/// and differ in bit 30 of the word, which is bit 10 of the immediate.
pub open spec fn decoded_op_imm(w: u32) -> Result<Instruction, DecodeError> {
    let rd = rd_field(w);
    let rs1 = rs1_field(w);
    let imm = i_immediate(w);
    let f3 = funct3_field(w);
    if f3 == 0 {
        Ok(Instruction::ADDI(rd, rs1, imm))
    } else if f3 == 1 {
        Ok(Instruction::SLLI(rd, rs1, imm))
    } else if f3 == 2 {
        Ok(Instruction::SLTI(rd, rs1, imm))
    } else if f3 == 3 {
        Ok(Instruction::SLTIU(rd, rs1, imm))
    } else if f3 == 4 {
        Ok(Instruction::XORI(rd, rs1, imm))
    } else if f3 == 5 {
        if field(w, 0x4000_0000, 2) == 0 {
            Ok(Instruction::SRLI(rd, rs1, imm))
        } else {
            Ok(Instruction::SRAI(rd, rs1, imm))
        }
    } else if f3 == 6 {
        Ok(Instruction::ORI(rd, rs1, imm))
    } else if f3 == 7 {
        Ok(Instruction::ANDI(rd, rs1, imm))
    } else {
        Err(DecodeError::InvalidFunct3)
    }
}

/// What a `STORE` word encodes.
pub open spec fn decoded_store(w: u32) -> Result<Instruction, DecodeError> {
    let rs1 = rs1_field(w);
    let rs2 = rs2_field(w);
    let imm = s_immediate(w);
    let f3 = funct3_field(w);
    if f3 == 0 {
        Ok(Instruction::SB(rs1, rs2, imm))
    } else if f3 == 1 {
        Ok(Instruction::SH(rs1, rs2, imm))
    } else if f3 == 2 {
        Ok(Instruction::SW(rs1, rs2, imm))
    } else {
        Err(DecodeError::InvalidFunct3)
    }
}

/// The multiply/divide instruction that `funct3` selects.
pub open spec fn multiply_divide_at(
    f3: Funct3,
    rd: Rindex,
    rs1: Rindex,
    rs2: Rindex,
) -> Instruction {
    if f3 == 0 {
        Instruction::MUL(rd, rs1, rs2)
    } else if f3 == 1 {
        Instruction::MULH(rd, rs1, rs2)
    } else if f3 == 2 {
        Instruction::MULHSU(rd, rs1, rs2)
    } else if f3 == 3 {
        Instruction::MULHU(rd, rs1, rs2)
    } else if f3 == 4 {
        Instruction::DIV(rd, rs1, rs2)
    } else if f3 == 5 {
        Instruction::DIVU(rd, rs1, rs2)
    } else if f3 == 6 {
        Instruction::REM(rd, rs1, rs2)
    } else {
        Instruction::REMU(rd, rs1, rs2)
    }
}

/// What an `OP` word encodes. An odd `funct7` selects the multiply/divide
/// instruction of `funct3`. Otherwise `funct3` selects the base
/// instruction; where two share a `funct3`, `funct7` must be `0` for the
/// first and `0x20` for the second.
pub open spec fn decoded_op(w: u32) -> Result<Instruction, DecodeError> {
    let rd = rd_field(w);
    let rs1 = rs1_field(w);
    let rs2 = rs2_field(w);
    let f3 = funct3_field(w);
    let f7 = funct7_field(w);
    if f7 % 2 == 1 {
        Ok(multiply_divide_at(f3, rd, rs1, rs2))
    } else if f3 == 0 {
        if f7 == 0 {
            Ok(Instruction::ADD(rd, rs1, rs2))
        } else if f7 == 0x20 {
            Ok(Instruction::SUB(rd, rs1, rs2))
        } else {
            Err(DecodeError::InvalidFunct7)
        }
    } else if f3 == 1 {
        Ok(Instruction::SLL(rd, rs1, rs2))
    } else if f3 == 2 {
        Ok(Instruction::SLT(rd, rs1, rs2))
    } else if f3 == 3 {
        Ok(Instruction::SLTU(rd, rs1, rs2))
    } else if f3 == 4 {
        Ok(Instruction::XOR(rd, rs1, rs2))
    } else if f3 == 5 {
        if f7 == 0 {
            Ok(Instruction::SRL(rd, rs1, rs2))
        } else if f7 == 0x20 {
            Ok(Instruction::SRA(rd, rs1, rs2))
        } else {
            Err(DecodeError::InvalidFunct7)
        }
    } else if f3 == 6 {
        Ok(Instruction::OR(rd, rs1, rs2))
    } else if f3 == 7 {
        Ok(Instruction::AND(rd, rs1, rs2))
    } else {
        Err(DecodeError::InvalidFunct3)
    }
}

/// What a `BRANCH` word encodes.
pub open spec fn decoded_branch(w: u32) -> Result<Instruction, DecodeError> {
    let rs1 = rs1_field(w);
    let rs2 = rs2_field(w);
    let imm = b_immediate(w);
    let f3 = funct3_field(w);
    if f3 == 0 {
        Ok(Instruction::BEQ(rs1, rs2, imm))
    } else if f3 == 1 {
        Ok(Instruction::BNE(rs1, rs2, imm))
    } else if f3 == 4 {
        Ok(Instruction::BLT(rs1, rs2, imm))
    } else if f3 == 5 {
        Ok(Instruction::BGE(rs1, rs2, imm))
    } else if f3 == 6 {
        Ok(Instruction::BLTU(rs1, rs2, imm))
    } else if f3 == 7 {
        Ok(Instruction::BGEU(rs1, rs2, imm))
    } else {
        Err(DecodeError::InvalidFunct3)
    }
}

/// What a `SYSTEM` word encodes. With `funct3 = 0` the whole immediate
/// selects the instruction; the other assigned values of `funct3` are the
/// CSR instructions.
pub open spec fn decoded_system(w: u32) -> Result<Instruction, DecodeError> {
    let rd = rd_field(w);
    let rs1 = rs1_field(w);
    let imm = i_immediate(w);
    let f3 = funct3_field(w);
    if f3 == 0 {
        if imm == 0x000 {
            Ok(Instruction::ECALL())
        } else if imm == 0x001 {
            Ok(Instruction::EBREAK())
        } else if imm == 0x302 {
            Ok(Instruction::MRET())
        } else {
            Err(DecodeError::InvalidSystemImmediate)
        }
    } else if f3 == 1 {
        Ok(Instruction::CSRRW(rd, rs1, imm))
    } else if f3 == 2 {
        Ok(Instruction::CSRRS(rd, rs1, imm))
    } else if f3 == 3 {
        Ok(Instruction::CSRRC(rd, rs1, imm))
    } else if f3 == 5 {
        Ok(Instruction::CSRRWI(rd, rs1, imm))
    } else if f3 == 6 {
        Ok(Instruction::CSRRSI(rd, rs1, imm))
    } else if f3 == 7 {
        Ok(Instruction::CSRRCI(rd, rs1, imm))
    } else {
        Err(DecodeError::InvalidFunct3)
    }
}

/// The instruction that the word `w` encodes, or why it encodes none.
pub open spec fn decoded(w: u32) -> Result<Instruction, DecodeError> {
    if w % 4 != 3 {
        Err(DecodeError::NotBaseEncoding)
    } else {
        match opcode_class(w) {
            OpCode::LOAD => decoded_load(w),
            OpCode::MISCMEM => Ok(Instruction::FENCE(rd_field(w), rs1_field(w), i_immediate(w))),
            OpCode::OPIMM => decoded_op_imm(w),
            OpCode::AUIPC => Ok(Instruction::AUIPC(rd_field(w), u_immediate(w))),
            OpCode::STORE => decoded_store(w),
            OpCode::OP => decoded_op(w),
            OpCode::LUI => Ok(Instruction::LUI(rd_field(w), u_immediate(w))),
            OpCode::BRANCH => decoded_branch(w),
            OpCode::JALR => Ok(Instruction::JALR(rd_field(w), rs1_field(w), i_immediate(w))),
            OpCode::JAL => Ok(Instruction::JAL(rd_field(w), j_immediate(w))),
            OpCode::SYSTEM => decoded_system(w),
            _ => Err(DecodeError::UnimplementedOpcode),
        }
    }
}

/// The six encoding shapes, and the instructions that carry no operand.
pub enum Shape {
    R,
    I,
    S,
    B,
    U,
    J,
    Bare,
}

impl Instruction {
    /// The shape in which the instruction's operands are encoded.
    pub open spec fn shape(self) -> Shape {
        match self {
            Instruction::LUI(..) | Instruction::AUIPC(..) => Shape::U,
            Instruction::JAL(..) => Shape::J,
            Instruction::BEQ(..)
            | Instruction::BNE(..)
            | Instruction::BLT(..)
            | Instruction::BGE(..)
            | Instruction::BLTU(..)
            | Instruction::BGEU(..) => Shape::B,
            Instruction::SB(..) | Instruction::SH(..) | Instruction::SW(..) => Shape::S,
            Instruction::ECALL() | Instruction::EBREAK() | Instruction::MRET() => Shape::Bare,
            _ => if self.operands() is RegRegReg {
                Shape::R
            } else {
                Shape::I
            },
        }
    }

    /// The operand slots are the fields of `w` that the instruction's shape
    /// names, in the order in which the variant carries them.
    pub open spec fn encoded_in(self, w: u32) -> bool {
        self.operands() == match self.shape() {
            Shape::R => Operands::RegRegReg(rd_field(w), rs1_field(w), rs2_field(w)),
            Shape::I => Operands::RegRegImm(rd_field(w), rs1_field(w), i_immediate(w)),
            Shape::S => Operands::RegRegImm(rs1_field(w), rs2_field(w), s_immediate(w)),
            Shape::B => Operands::RegRegImm(rs1_field(w), rs2_field(w), b_immediate(w)),
            Shape::U => Operands::RegImm(rd_field(w), u_immediate(w)),
            Shape::J => Operands::RegImm(rd_field(w), j_immediate(w)),
            Shape::Bare => Operands::Bare,
        }
    }
}

/// Whether the class of `w` assigns an instruction to the `funct3`, the
/// `funct7` and the immediate that `w` holds.
pub open spec fn assigned(w: u32) -> bool {
    let f3 = funct3_field(w);
    let f7 = funct7_field(w);
    let imm = i_immediate(w);
    match opcode_class(w) {
        OpCode::LOAD => f3 == 0 || f3 == 1 || f3 == 2 || f3 == 4 || f3 == 5,
        OpCode::STORE => f3 == 0 || f3 == 1 || f3 == 2,
        OpCode::BRANCH => f3 != 2 && f3 != 3,
        OpCode::OP => f7 % 2 == 1 || (f3 != 0 && f3 != 5) || f7 == 0 || f7 == 0x20,
        OpCode::SYSTEM => f3 != 4 && (f3 == 0 ==> imm == 0x000 || imm == 0x001 || imm == 0x302),
        _ => true,
    }
}

/// A word in the base encoding, of an implemented class, with assigned
/// function fields, decodes to an instruction whose operand slots are the
/// fields of its encoding shape, and whose register slots are below 32.
pub proof fn law_decode_operands(w: u32)
    requires
        w % 4 == 3,
        implemented(opcode_class(w)),
        assigned(w),
    ensures
        decoded(w) is Ok,
        decoded(w)->Ok_0.encoded_in(w),
        decoded(w)->Ok_0.wf(),
{
    lemma_fields(w);
}

/// A word decodes exactly if it is in the base encoding, its class is
/// implemented and its function fields are assigned; each error comes on
/// exactly the words that its name describes.
pub proof fn law_decode_errors(w: u32)
    ensures
        decoded(w) is Ok <==> w % 4 == 3 && implemented(opcode_class(w)) && assigned(w),
        decoded(w) == Err::<Instruction, _>(DecodeError::NotBaseEncoding) <==> w % 4 != 3,
        decoded(w) == Err::<Instruction, _>(DecodeError::UnimplementedOpcode) <==> w % 4 == 3
            && !implemented(opcode_class(w)),
        decoded(w) == Err::<Instruction, _>(DecodeError::InvalidFunct3) <==> w % 4 == 3 && {
            let f3 = funct3_field(w);
            match opcode_class(w) {
                OpCode::LOAD => f3 == 3 || f3 == 6 || f3 == 7,
                OpCode::STORE => f3 >= 3,
                OpCode::BRANCH => f3 == 2 || f3 == 3,
                OpCode::SYSTEM => f3 == 4,
                _ => false,
            }
        },
        decoded(w) == Err::<Instruction, _>(DecodeError::InvalidFunct7) <==> w % 4 == 3
            && opcode_class(w) is OP && (funct3_field(w) == 0 || funct3_field(w) == 5)
            && funct7_field(w) % 2 != 1 && funct7_field(w) != 0 && funct7_field(w) != 0x20,
        decoded(w) == Err::<Instruction, _>(DecodeError::InvalidSystemImmediate) <==> w % 4 == 3
            && opcode_class(w) is SYSTEM && funct3_field(w) == 0 && i_immediate(w) != 0x000
            && i_immediate(w) != 0x001 && i_immediate(w) != 0x302,
{
    lemma_fields(w);
}

/// A decoded instruction belongs to the multiply/divide extension exactly
/// if the word is of class `OP` with an odd `funct7`, and to the CSR
/// extension exactly if it is of class `SYSTEM` with a nonzero `funct3`.
pub proof fn law_decode_extensions(w: u32)
    requires
        decoded(w) is Ok,
    ensures
        decoded(w)->Ok_0.multiply_divide() <==> opcode_class(w) is OP && funct7_field(w) % 2 == 1,
        decoded(w)->Ok_0.zicsr() <==> opcode_class(w) is SYSTEM && funct3_field(w) != 0,
{
    lemma_fields(w);
}

/// Decodes one instruction word.
#[allow(clippy::too_many_lines)]
pub fn decode(instruction: u32) -> (r: Result<Instruction, DecodeError>)
    ensures
        r == decoded(instruction),
        r is Ok <==> instruction % 4 == 3 && implemented(opcode_class(instruction))
            && assigned(instruction),
        r matches Ok(ins) ==> ins.encoded_in(instruction) && ins.wf(),
{
    proof {
        lemma_fields(instruction);
        law_decode_errors(instruction);
        if decoded(instruction) is Ok {
            law_decode_operands(instruction);
        }
    }
    if instruction & 0b11 != 0b11 {
        return Err(DecodeError::NotBaseEncoding);
    }
    let op = get_opcode(instruction);

    match op {
        OpCode::LOAD => {
            /* All LOAD are I-Type instructions */
            let rd_index: RDindex = rd(instruction);
            let rs1: RS1index = rs1(instruction);
            let i_imm: Iimmediate = immediate_i(instruction);
            match funct3(instruction) {
                0b000 => Ok(Instruction::LB(rd_index, rs1, i_imm)),
                0b001 => Ok(Instruction::LH(rd_index, rs1, i_imm)),
                0b010 => Ok(Instruction::LW(rd_index, rs1, i_imm)),
                0b100 => Ok(Instruction::LBU(rd_index, rs1, i_imm)),
                0b101 => Ok(Instruction::LHU(rd_index, rs1, i_imm)),
                _ => Err(DecodeError::InvalidFunct3),
            }
        },
        OpCode::MISCMEM => {
            let rd_index: RDindex = rd(instruction);
            let rs1: RS1index = rs1(instruction);
            let i_imm: Iimmediate = immediate_i(instruction);
            Ok(Instruction::FENCE(rd_index, rs1, i_imm))
        },
        OpCode::OPIMM => {
            /* All OPIMM are I-Type instructions */
            let rd_index: RDindex = rd(instruction);
            let rs1: RS1index = rs1(instruction);
            let i_imm: Iimmediate = immediate_i(instruction);
            match funct3(instruction) {
                0b000 => Ok(Instruction::ADDI(rd_index, rs1, i_imm)),
                0b010 => Ok(Instruction::SLTI(rd_index, rs1, i_imm)),
                0b011 => Ok(Instruction::SLTIU(rd_index, rs1, i_imm)),
                0b100 => Ok(Instruction::XORI(rd_index, rs1, i_imm)),
                0b110 => Ok(Instruction::ORI(rd_index, rs1, i_imm)),
                0b111 => Ok(Instruction::ANDI(rd_index, rs1, i_imm)),
                0b001 => Ok(Instruction::SLLI(rd_index, rs1, i_imm)),
                0b101 => {
                    if instruction & 0x4000_0000 != 0 {
                        Ok(Instruction::SRAI(rd_index, rs1, i_imm))
                    } else {
                        Ok(Instruction::SRLI(rd_index, rs1, i_imm))
                    }
                },
                _ => Err(DecodeError::InvalidFunct3),
            }
        },
        OpCode::AUIPC => {
            /* U Type */
            let rd_index: RDindex = rd(instruction);
            let u_imm: Uimmediate = immediate_u(instruction);
            Ok(Instruction::AUIPC(rd_index, u_imm))
        },
        OpCode::STORE => {
            /* STOREs are S-Type */
            let rs1: RS1index = rs1(instruction);
            let rs2: RS2index = rs2(instruction);
            let s_imm: Simmediate = immediate_s(instruction);
            match funct3(instruction) {
                0b000 => Ok(Instruction::SB(rs1, rs2, s_imm)),
                0b001 => Ok(Instruction::SH(rs1, rs2, s_imm)),
                0b010 => Ok(Instruction::SW(rs1, rs2, s_imm)),
                _ => Err(DecodeError::InvalidFunct3),
            }
        },
        OpCode::OP => {
            /* All OP are R-Type instructions */
            let rd_index: RDindex = rd(instruction);
            let rs1: RS1index = rs1(instruction);
            let rs2: RS2index = rs2(instruction);
            let f7: Funct7 = funct7(instruction);

            let is_m_extension = f7 & 0b1 == 1;
            assert(is_m_extension == (f7 % 2 == 1)) by (bit_vector)
                requires
                    is_m_extension == (f7 & 0b1 == 1),
            ;
            match funct3(instruction) {
                0b000 => {
                    if is_m_extension {
                        return Ok(Instruction::MUL(rd_index, rs1, rs2));
                    }
                    if f7 == 0 {
                        Ok(Instruction::ADD(rd_index, rs1, rs2))
                    } else if f7 == 0b010_0000 {
                        Ok(Instruction::SUB(rd_index, rs1, rs2))
                    } else {
                        Err(DecodeError::InvalidFunct7)
                    }
                },
                0b001 => {
                    if is_m_extension {
                        return Ok(Instruction::MULH(rd_index, rs1, rs2));
                    }
                    Ok(Instruction::SLL(rd_index, rs1, rs2))
                },
                0b010 => {
                    if is_m_extension {
                        return Ok(Instruction::MULHSU(rd_index, rs1, rs2));
                    }
                    Ok(Instruction::SLT(rd_index, rs1, rs2))
                },
                0b011 => {
                    if is_m_extension {
                        return Ok(Instruction::MULHU(rd_index, rs1, rs2));
                    }
                    Ok(Instruction::SLTU(rd_index, rs1, rs2))
                },
                0b100 => {
                    if is_m_extension {
                        return Ok(Instruction::DIV(rd_index, rs1, rs2));
                    }
                    Ok(Instruction::XOR(rd_index, rs1, rs2))
                },
                0b101 => {
                    if is_m_extension {
                        return Ok(Instruction::DIVU(rd_index, rs1, rs2));
                    }
                    if f7 == 0 {
                        Ok(Instruction::SRL(rd_index, rs1, rs2))
                    } else if f7 == 0b010_0000 {
                        Ok(Instruction::SRA(rd_index, rs1, rs2))
                    } else {
                        Err(DecodeError::InvalidFunct7)
                    }
                },
                0b110 => {
                    if is_m_extension {
                        return Ok(Instruction::REM(rd_index, rs1, rs2));
                    }
                    Ok(Instruction::OR(rd_index, rs1, rs2))
                },
                _ => {
                    if is_m_extension {
                        return Ok(Instruction::REMU(rd_index, rs1, rs2));
                    }
                    Ok(Instruction::AND(rd_index, rs1, rs2))
                },
            }
        },
        OpCode::LUI => {
            /* U Type */
            let rd_index: RDindex = rd(instruction);
            let u_imm: Uimmediate = immediate_u(instruction);
            Ok(Instruction::LUI(rd_index, u_imm))
        },
        OpCode::BRANCH => {
            /* B-Type instructions */
            let rs1: RS1index = rs1(instruction);
            let rs2: RS2index = rs2(instruction);
            let b_imm: Bimmediate = immediate_b(instruction);
            match funct3(instruction) {
                0b000 => Ok(Instruction::BEQ(rs1, rs2, b_imm)),
                0b001 => Ok(Instruction::BNE(rs1, rs2, b_imm)),
                0b100 => Ok(Instruction::BLT(rs1, rs2, b_imm)),
                0b101 => Ok(Instruction::BGE(rs1, rs2, b_imm)),
                0b110 => Ok(Instruction::BLTU(rs1, rs2, b_imm)),
                0b111 => Ok(Instruction::BGEU(rs1, rs2, b_imm)),
                _ => Err(DecodeError::InvalidFunct3),
            }
        },
        OpCode::JALR => {
            /* I-Type instruction */
            let rd_index: RDindex = rd(instruction);
            let rs1: RS1index = rs1(instruction);
            let i_imm: Iimmediate = immediate_i(instruction);
            Ok(Instruction::JALR(rd_index, rs1, i_imm))
        },
        OpCode::JAL => {
            let rd_index: RDindex = rd(instruction);
            let j_imm: Jimmediate = immediate_j(instruction);
            Ok(Instruction::JAL(rd_index, j_imm))
        },
        OpCode::SYSTEM => {
            /* I-Type instruction */
            let rd_index: RDindex = rd(instruction);
            let rs1: RS1index = rs1(instruction);
            let i_imm: Iimmediate = immediate_i(instruction);
            match funct3(instruction) {
                0b000 => match i_imm {
                    0b0000_0000_0000 => Ok(Instruction::ECALL()),
                    0b0000_0000_0001 => Ok(Instruction::EBREAK()),
                    0b0011_0000_0010 => Ok(Instruction::MRET()),
                    _ => Err(DecodeError::InvalidSystemImmediate),
                },
                0b001 => Ok(Instruction::CSRRW(rd_index, rs1, i_imm)),
                0b010 => Ok(Instruction::CSRRS(rd_index, rs1, i_imm)),
                0b011 => Ok(Instruction::CSRRC(rd_index, rs1, i_imm)),
                0b101 => {
                    /* This instruction repurposes rs1 as immediate */
                    Ok(Instruction::CSRRWI(rd_index, rs1, i_imm))
                },
                0b110 => {
                    /* This instruction repurposes rs1 as immediate */
                    Ok(Instruction::CSRRSI(rd_index, rs1, i_imm))
                },
                0b111 => {
                    /* This instruction repurposes rs1 as immediate */
                    Ok(Instruction::CSRRCI(rd_index, rs1, i_imm))
                },
                _ => Err(DecodeError::InvalidFunct3),
            }
        },
        OpCode::LOADFP
        | OpCode::CUSTOM0
        | OpCode::OPIMM32
        | OpCode::LEN48
        | OpCode::STOREFP
        | OpCode::CUSTOM1
        | OpCode::AMO
        | OpCode::OP32
        | OpCode::LEN64
        | OpCode::MADD
        | OpCode::MSUB
        | OpCode::NMSUB
        | OpCode::NMADD
        | OpCode::OPFP
        | OpCode::RESERVED1
        | OpCode::CUSTOM2
        | OpCode::LEN482
        | OpCode::RESERVED2
        | OpCode::RESERVED3
        | OpCode::CUSTOM3
        | OpCode::LEN80 => Err(DecodeError::UnimplementedOpcode),
    }
}

} // verus!
