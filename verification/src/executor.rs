//! The execution engine: what each instruction does to the registers and
//! the memory, one fetch-decode-execute cycle, and a bounded run.

use vstd::prelude::*;
use crate::alu::{
    alu, compute, displace, displaced, extend_byte, extend_halfword, less_than_signed,
    sign_extend_byte, sign_extend_halfword, signed, wrap, AluOp,
};
use crate::decoder::{
    decode, decoded, law_decode_errors, law_decode_operands, DecodeError, Instruction, Rindex,
};
use crate::system::{
    law_write_keeps_regions, CsrError, Memory, MemoryError, MemoryView, RegisterFile,
    RegisterView,
};

verus! {

/// Whether the machine goes on after an instruction.
#[derive(Clone, Copy, Debug, PartialEq, Eq, Structural)]
pub enum Status {
    /// The next instruction is to be fetched.
    Running,
    /// An `ECALL` or an `EBREAK` was reached.
    Halted,
}

/// An error that ends the run.
#[derive(Clone, Copy, Debug, PartialEq, Eq, Structural)]
pub enum Fault {
    /// The instruction word could not be read at the program counter.
    Fetch(MemoryError),
    /// The word that was fetched, and why it is no instruction.
    Decode(u32, DecodeError),
    /// A load or a store failed.
    Memory(MemoryError),
    /// An access to a control and status register failed.
    Csr(CsrError),
}

/// What a CSR instruction writes, given the value it read.
#[derive(Clone, Copy, Debug, PartialEq, Eq, Structural)]
pub enum CsrWrite {
    /// The operand replaces the value.
    Replace(u32),
    /// The bits of the operand are set in the value.
    SetBits(u32),
    /// The bits of the operand are cleared in the value.
    ClearBits(u32),
}

impl CsrWrite {
    /// The value written where `current` was read.
    pub open spec fn value(self, current: u32) -> u32 {
        match self {
            CsrWrite::Replace(operand) => operand,
            CsrWrite::SetBits(mask) => current | mask,
            CsrWrite::ClearBits(mask) => current & !mask,
        }
    }
}

/// The address of the register that a CSR instruction names: the low
/// twelve bits of its immediate.
pub open spec fn csr_address(imm: u32) -> u32 {
    imm % 0x1000
}

/// The word `target` with its lowest bit cleared.
pub open spec fn even(target: u32) -> u32 {
    (target - target % 2) as u32
}

impl RegisterView {
    /// The address of the instruction that follows in memory.
    pub open spec fn next_pc(self) -> u32 {
        wrap(self.pc + 4)
    }

    /// The state with the program counter at the following instruction.
    pub open spec fn advance(self) -> RegisterView {
        self.jump(self.next_pc())
    }

    /// The state after `op` on `a` and `b` has been written to `rd`, with
    /// the program counter at the following instruction.
    pub open spec fn operate(self, op: AluOp, rd: Rindex, a: u32, b: u32) -> RegisterView {
        self.write(rd as int, alu(op, a, b)).advance()
    }

    /// The state after a branch at the signed distance `imm`: taken, the
    /// program counter moves by that distance; not taken, to the following
    /// instruction.
    pub open spec fn branch(self, taken: bool, imm: u32) -> RegisterView {
        if taken {
            self.jump(displaced(self.pc, imm))
        } else {
            self.advance()
        }
    }

    /// The state after the address of the following instruction has been
    /// written to `rd` and the program counter has moved to `target`.
    pub open spec fn link(self, rd: Rindex, target: u32) -> RegisterView {
        self.write(rd as int, self.next_pc()).jump(target)
    }

    /// The address that a load or store forms from the base register `rs1`
    /// and the signed distance `imm`.
    pub open spec fn address(self, rs1: Rindex, imm: u32) -> int {
        displaced(self.read(rs1 as int), imm) as int
    }

    /// The state after a CSR instruction: the register named by `imm` is
    /// read, then written if there is something to write, then the value
    /// read goes to `rd`, and the program counter to the following
    /// instruction. If the read or the write fails, nothing changes.
    pub open spec fn csr_access(self, rd: Rindex, imm: u32, write: Option<CsrWrite>) -> Result<
        RegisterView,
        CsrError,
    > {
        let index = csr_address(imm);
        match self.csr.read_result(index) {
            Err(e) => Err(e),
            Ok(current) => match write {
                None => Ok(self.write(rd as int, current).advance()),
                Some(w) => match self.csr.write_result(index, w.value(current)) {
                    Err(e) => Err(e),
                    Ok(_) => Ok(
                        self.with_csr(self.csr.after_write(index, w.value(current))).write(
                            rd as int,
                            current,
                        ).advance(),
                    ),
                },
            },
        }
    }
}

/// The registers and the memory together.
pub struct Machine {
    pub regs: RegisterView,
    pub mem: MemoryView,
}

/// A machine after an instruction or a run, and how that ended.
pub struct Outcome {
    pub state: Machine,
    pub result: Result<Status, Fault>,
}

/// The machine with the registers `regs` and the memory `mem`.
pub open spec fn machine(regs: RegisterView, mem: MemoryView) -> Machine {
    Machine { regs, mem }
}

/// The machine with the registers `regs` and the memory `mem`, reached with
/// `result`.
pub open spec fn outcome(
    regs: RegisterView,
    mem: MemoryView,
    result: Result<Status, Fault>,
) -> Outcome {
    Outcome { state: Machine { regs, mem }, result }
}

/// The width of a load, and how the loaded value is extended to a word.
#[derive(Clone, Copy, Debug, PartialEq, Eq, Structural)]
pub enum LoadWidth {
    Byte,
    Halfword,
    Word,
    ByteUnsigned,
    HalfwordUnsigned,
}

/// The width of a store.
#[derive(Clone, Copy, Debug, PartialEq, Eq, Structural)]
pub enum StoreWidth {
    Byte,
    Halfword,
    Word,
}

impl MemoryView {
    /// What a load of `width` at `addr` gives.
    pub open spec fn load(self, width: LoadWidth, addr: int) -> Result<u32, MemoryError> {
        match width {
            LoadWidth::Byte => match self.read_byte(addr) {
                Ok(v) => Ok(sign_extend_byte(v)),
                Err(e) => Err(e),
            },
            LoadWidth::Halfword => match self.read_halfword(addr) {
                Ok(v) => Ok(sign_extend_halfword(v)),
                Err(e) => Err(e),
            },
            LoadWidth::Word => self.read_word(addr),
            LoadWidth::ByteUnsigned => self.read_byte(addr),
            LoadWidth::HalfwordUnsigned => self.read_halfword(addr),
        }
    }

    /// Whether a store of `width` at `addr` succeeds.
    pub open spec fn store_result(self, width: StoreWidth, addr: int) -> Result<(), MemoryError> {
        match width {
            StoreWidth::Byte => self.write_byte_result(addr),
            StoreWidth::Halfword => self.write_halfword_result(addr),
            StoreWidth::Word => self.write_word_result(addr),
        }
    }

    /// The memory after a store of the low bytes of `value` at `addr`.
    pub open spec fn store(self, width: StoreWidth, addr: int, value: u32) -> MemoryView {
        match width {
            StoreWidth::Byte => self.write_byte(addr, value),
            StoreWidth::Halfword => self.write_halfword(addr, value),
            StoreWidth::Word => self.write_word(addr, value),
        }
    }
}

impl Machine {
    /// The machine goes on with the registers `regs`.
    pub open spec fn proceed(self, regs: RegisterView) -> Outcome {
        Outcome { state: Machine { regs, mem: self.mem }, result: Ok(Status::Running) }
    }

    /// The run ends with `fault`, the machine as it is.
    pub open spec fn fail(self, fault: Fault) -> Outcome {
        Outcome { state: self, result: Err(fault) }
    }

    /// A load of `width` into `rd` from the address that `rs1` and `imm`
    /// form. If it fails, nothing changes.
    pub open spec fn load(self, width: LoadWidth, rd: Rindex, rs1: Rindex, imm: u32) -> Outcome {
        match self.mem.load(width, self.regs.address(rs1, imm)) {
            Ok(v) => self.proceed(self.regs.write(rd as int, v).advance()),
            Err(e) => self.fail(Fault::Memory(e)),
        }
    }

    /// A store of `width` of the register `rs2` to the address that `rs1`
    /// and `imm` form. If it fails, the bytes before the one that failed
    /// have been written, and the registers are unchanged.
    pub open spec fn store(self, width: StoreWidth, rs1: Rindex, rs2: Rindex, imm: u32) -> Outcome {
        let addr = self.regs.address(rs1, imm);
        let after = Machine {
            regs: self.regs,
            mem: self.mem.store(width, addr, self.regs.read(rs2 as int)),
        };
        match self.mem.store_result(width, addr) {
            Ok(_) => after.proceed(self.regs.advance()),
            Err(e) => after.fail(Fault::Memory(e)),
        }
    }

    /// A CSR instruction.
    pub open spec fn csr(self, rd: Rindex, imm: u32, write: Option<CsrWrite>) -> Outcome {
        match self.regs.csr_access(rd, imm, write) {
            Ok(regs) => self.proceed(regs),
            Err(e) => self.fail(Fault::Csr(e)),
        }
    }

    /// The value of register `index`.
    pub open spec fn x(self, index: Rindex) -> u32 {
        self.regs.read(index as int)
    }
}

/// Where the second operand of an operation comes from.
#[derive(Clone, Copy, Debug, PartialEq, Eq, Structural)]
pub enum Operand {
    /// The register with this index.
    Register(Rindex),
    /// This word.
    Immediate(u32),
}

/// The comparison of a branch.
#[derive(Clone, Copy, Debug, PartialEq, Eq, Structural)]
pub enum Condition {
    Equal,
    NotEqual,
    Less,
    NotLess,
    LessUnsigned,
    NotLessUnsigned,
}

/// How a CSR instruction changes the register it names.
#[derive(Clone, Copy, Debug, PartialEq, Eq, Structural)]
pub enum CsrKind {
    Replace,
    SetBits,
    ClearBits,
}

/// What an instruction does, by kind: the instructions of one kind differ
/// in an operation, a condition or a width only.
#[derive(Clone, Copy, Debug, PartialEq, Eq, Structural)]
pub enum Action {
    /// `rd` gets the immediate.
    LoadUpper(Rindex, u32),
    /// `rd` gets the program counter plus the immediate.
    AddUpper(Rindex, u32),
    /// `rd` gets the return address; the program counter moves by the
    /// immediate.
    Jump(Rindex, u32),
    /// `rd` gets the return address; the program counter goes to `rs1` plus
    /// the immediate, made even.
    JumpRegister(Rindex, Rindex, u32),
    /// The program counter moves by the immediate if the condition holds of
    /// `rs1` and `rs2`.
    Branch(Condition, Rindex, Rindex, u32),
    /// `rd` gets what is loaded at `rs1` plus the immediate.
    Load(LoadWidth, Rindex, Rindex, u32),
    /// `rs2` is stored at `rs1` plus the immediate.
    Store(StoreWidth, Rindex, Rindex, u32),
    /// `rd` gets the operation on `rs1` and the operand.
    Operate(AluOp, Rindex, Rindex, Operand),
    /// Nothing but the step to the following instruction.
    Fence,
    /// The run ends.
    Halt,
    /// The program counter goes to `mepc`.
    Return,
    /// `rd` gets the register that the immediate names, which is changed
    /// with the operand as the kind says.
    Csr(CsrKind, Rindex, Operand, u32),
}

/// The kind of an instruction, with its operands.
pub open spec fn plan(instruction: Instruction) -> Action {
    match instruction {
        Instruction::LUI(rd, imm) => Action::LoadUpper(rd, imm),
        Instruction::AUIPC(rd, imm) => Action::AddUpper(rd, imm),
        Instruction::JAL(rd, imm) => Action::Jump(rd, imm),
        Instruction::JALR(rd, rs1, imm) => Action::JumpRegister(rd, rs1, imm),
        Instruction::BEQ(rs1, rs2, imm) => Action::Branch(Condition::Equal, rs1, rs2, imm),
        Instruction::BNE(rs1, rs2, imm) => Action::Branch(Condition::NotEqual, rs1, rs2, imm),
        Instruction::BLT(rs1, rs2, imm) => Action::Branch(Condition::Less, rs1, rs2, imm),
        Instruction::BGE(rs1, rs2, imm) => Action::Branch(Condition::NotLess, rs1, rs2, imm),
        Instruction::BLTU(rs1, rs2, imm) => Action::Branch(Condition::LessUnsigned, rs1, rs2, imm),
        Instruction::BGEU(rs1, rs2, imm) => Action::Branch(
            Condition::NotLessUnsigned,
            rs1,
            rs2,
            imm,
        ),
        Instruction::LB(rd, rs1, imm) => Action::Load(LoadWidth::Byte, rd, rs1, imm),
        Instruction::LH(rd, rs1, imm) => Action::Load(LoadWidth::Halfword, rd, rs1, imm),
        Instruction::LW(rd, rs1, imm) => Action::Load(LoadWidth::Word, rd, rs1, imm),
        Instruction::LBU(rd, rs1, imm) => Action::Load(LoadWidth::ByteUnsigned, rd, rs1, imm),
        Instruction::LHU(rd, rs1, imm) => Action::Load(LoadWidth::HalfwordUnsigned, rd, rs1, imm),
        Instruction::SB(rs1, rs2, imm) => Action::Store(StoreWidth::Byte, rs1, rs2, imm),
        Instruction::SH(rs1, rs2, imm) => Action::Store(StoreWidth::Halfword, rs1, rs2, imm),
        Instruction::SW(rs1, rs2, imm) => Action::Store(StoreWidth::Word, rs1, rs2, imm),
        Instruction::ADDI(rd, rs1, imm) => Action::Operate(
            AluOp::Add,
            rd,
            rs1,
            Operand::Immediate(imm),
        ),
        Instruction::SLTI(rd, rs1, imm) => Action::Operate(
            AluOp::Slt,
            rd,
            rs1,
            Operand::Immediate(imm),
        ),
        Instruction::SLTIU(rd, rs1, imm) => Action::Operate(
            AluOp::Sltu,
            rd,
            rs1,
            Operand::Immediate(imm),
        ),
        Instruction::XORI(rd, rs1, imm) => Action::Operate(
            AluOp::Xor,
            rd,
            rs1,
            Operand::Immediate(imm),
        ),
        Instruction::ORI(rd, rs1, imm) => Action::Operate(
            AluOp::Or,
            rd,
            rs1,
            Operand::Immediate(imm),
        ),
        Instruction::ANDI(rd, rs1, imm) => Action::Operate(
            AluOp::And,
            rd,
            rs1,
            Operand::Immediate(imm),
        ),
        Instruction::SLLI(rd, rs1, imm) => Action::Operate(
            AluOp::Sll,
            rd,
            rs1,
            Operand::Immediate(imm),
        ),
        Instruction::SRLI(rd, rs1, imm) => Action::Operate(
            AluOp::Srl,
            rd,
            rs1,
            Operand::Immediate(imm),
        ),
        Instruction::SRAI(rd, rs1, imm) => Action::Operate(
            AluOp::Sra,
            rd,
            rs1,
            Operand::Immediate(imm),
        ),
        Instruction::ADD(rd, rs1, rs2) => Action::Operate(
            AluOp::Add,
            rd,
            rs1,
            Operand::Register(rs2),
        ),
        Instruction::SUB(rd, rs1, rs2) => Action::Operate(
            AluOp::Sub,
            rd,
            rs1,
            Operand::Register(rs2),
        ),
        Instruction::SLL(rd, rs1, rs2) => Action::Operate(
            AluOp::Sll,
            rd,
            rs1,
            Operand::Register(rs2),
        ),
        Instruction::SLT(rd, rs1, rs2) => Action::Operate(
            AluOp::Slt,
            rd,
            rs1,
            Operand::Register(rs2),
        ),
        Instruction::SLTU(rd, rs1, rs2) => Action::Operate(
            AluOp::Sltu,
            rd,
            rs1,
            Operand::Register(rs2),
        ),
        Instruction::XOR(rd, rs1, rs2) => Action::Operate(
            AluOp::Xor,
            rd,
            rs1,
            Operand::Register(rs2),
        ),
        Instruction::SRL(rd, rs1, rs2) => Action::Operate(
            AluOp::Srl,
            rd,
            rs1,
            Operand::Register(rs2),
        ),
        Instruction::SRA(rd, rs1, rs2) => Action::Operate(
            AluOp::Sra,
            rd,
            rs1,
            Operand::Register(rs2),
        ),
        Instruction::OR(rd, rs1, rs2) => Action::Operate(
            AluOp::Or,
            rd,
            rs1,
            Operand::Register(rs2),
        ),
        Instruction::AND(rd, rs1, rs2) => Action::Operate(
            AluOp::And,
            rd,
            rs1,
            Operand::Register(rs2),
        ),
        Instruction::FENCE(_, _, _) => Action::Fence,
        Instruction::ECALL() | Instruction::EBREAK() => Action::Halt,
        Instruction::MRET() => Action::Return,
        Instruction::CSRRW(rd, rs1, imm) => Action::Csr(
            CsrKind::Replace,
            rd,
            Operand::Register(rs1),
            imm,
        ),
        Instruction::CSRRS(rd, rs1, imm) => Action::Csr(
            CsrKind::SetBits,
            rd,
            Operand::Register(rs1),
            imm,
        ),
        Instruction::CSRRC(rd, rs1, imm) => Action::Csr(
            CsrKind::ClearBits,
            rd,
            Operand::Register(rs1),
            imm,
        ),
        Instruction::CSRRWI(rd, uimm, imm) => Action::Csr(
            CsrKind::Replace,
            rd,
            Operand::Immediate(uimm as u32),
            imm,
        ),
        Instruction::CSRRSI(rd, uimm, imm) => Action::Csr(
            CsrKind::SetBits,
            rd,
            Operand::Immediate(uimm as u32),
            imm,
        ),
        Instruction::CSRRCI(rd, uimm, imm) => Action::Csr(
            CsrKind::ClearBits,
            rd,
            Operand::Immediate(uimm as u32),
            imm,
        ),
        Instruction::MUL(rd, rs1, rs2) => Action::Operate(
            AluOp::Mul,
            rd,
            rs1,
            Operand::Register(rs2),
        ),
        Instruction::MULH(rd, rs1, rs2) => Action::Operate(
            AluOp::Mulh,
            rd,
            rs1,
            Operand::Register(rs2),
        ),
        Instruction::MULHSU(rd, rs1, rs2) => Action::Operate(
            AluOp::Mulhsu,
            rd,
            rs1,
            Operand::Register(rs2),
        ),
        Instruction::MULHU(rd, rs1, rs2) => Action::Operate(
            AluOp::Mulhu,
            rd,
            rs1,
            Operand::Register(rs2),
        ),
        Instruction::DIV(rd, rs1, rs2) => Action::Operate(
            AluOp::Div,
            rd,
            rs1,
            Operand::Register(rs2),
        ),
        Instruction::DIVU(rd, rs1, rs2) => Action::Operate(
            AluOp::Divu,
            rd,
            rs1,
            Operand::Register(rs2),
        ),
        Instruction::REM(rd, rs1, rs2) => Action::Operate(
            AluOp::Rem,
            rd,
            rs1,
            Operand::Register(rs2),
        ),
        Instruction::REMU(rd, rs1, rs2) => Action::Operate(
            AluOp::Remu,
            rd,
            rs1,
            Operand::Register(rs2),
        ),
    }
}

impl Action {
    /// Every register slot holds an index below 32.
    pub open spec fn wf(self) -> bool {
        match self {
            Action::LoadUpper(rd, _) | Action::AddUpper(rd, _) | Action::Jump(rd, _) => rd < 32,
            Action::JumpRegister(a, b, _)
            | Action::Branch(_, a, b, _)
            | Action::Load(_, a, b, _)
            | Action::Store(_, a, b, _) => a < 32 && b < 32,
            Action::Operate(_, rd, rs1, Operand::Register(rs2)) => rd < 32 && rs1 < 32 && rs2 < 32,
            Action::Operate(_, rd, rs1, Operand::Immediate(_)) => rd < 32 && rs1 < 32,
            Action::Csr(_, rd, Operand::Register(rs1), _) => rd < 32 && rs1 < 32,
            Action::Csr(_, rd, Operand::Immediate(_), _) => rd < 32,
            Action::Fence | Action::Halt | Action::Return => true,
        }
    }
}

impl RegisterView {
    /// The word that `operand` stands for.
    pub open spec fn operand(self, operand: Operand) -> u32 {
        match operand {
            Operand::Register(index) => self.read(index as int),
            Operand::Immediate(value) => value,
        }
    }

    /// Whether `condition` holds of the registers `rs1` and `rs2`.
    pub open spec fn holds(self, condition: Condition, rs1: Rindex, rs2: Rindex) -> bool {
        let a = self.read(rs1 as int);
        let b = self.read(rs2 as int);
        match condition {
            Condition::Equal => a == b,
            Condition::NotEqual => a != b,
            Condition::Less => signed(a) < signed(b),
            Condition::NotLess => signed(a) >= signed(b),
            Condition::LessUnsigned => a < b,
            Condition::NotLessUnsigned => a >= b,
        }
    }

    /// What a CSR instruction of `kind` with the operand `source` writes: a
    /// replacement always; bits to set or to clear unless the operand is
    /// register 0 or the immediate 0.
    pub open spec fn csr_write(self, kind: CsrKind, source: Operand) -> Option<CsrWrite> {
        let value = self.operand(source);
        let named = match source {
            Operand::Register(index) => index != 0,
            Operand::Immediate(v) => v != 0,
        };
        match kind {
            CsrKind::Replace => Some(CsrWrite::Replace(value)),
            CsrKind::SetBits => if named {
                Some(CsrWrite::SetBits(value))
            } else {
                None
            },
            CsrKind::ClearBits => if named {
                Some(CsrWrite::ClearBits(value))
            } else {
                None
            },
        }
    }
}

/// The machine after `action`, and whether it goes on.
pub open spec fn performed(s: Machine, action: Action) -> Outcome {
    let r = s.regs;
    match action {
        Action::LoadUpper(rd, imm) => s.proceed(r.write(rd as int, imm).advance()),
        Action::AddUpper(rd, imm) => s.proceed(r.write(rd as int, wrap(r.pc + imm)).advance()),
        Action::Jump(rd, imm) => s.proceed(r.link(rd, displaced(r.pc, imm))),
        Action::JumpRegister(rd, rs1, imm) => s.proceed(r.link(rd, even(displaced(s.x(rs1), imm)))),
        Action::Branch(condition, rs1, rs2, imm) => s.proceed(
            r.branch(r.holds(condition, rs1, rs2), imm),
        ),
        Action::Load(width, rd, rs1, imm) => s.load(width, rd, rs1, imm),
        Action::Store(width, rs1, rs2, imm) => s.store(width, rs1, rs2, imm),
        Action::Operate(op, rd, rs1, operand) => s.proceed(
            r.operate(op, rd, s.x(rs1), r.operand(operand)),
        ),
        Action::Fence => s.proceed(r.advance()),
        Action::Halt => Outcome { state: s, result: Ok(Status::Halted) },
        Action::Return => s.proceed(r.jump(r.csr.mepc)),
        Action::Csr(kind, rd, source, imm) => s.csr(rd, imm, r.csr_write(kind, source)),
    }
}

/// The machine after `instruction`, and whether it goes on: what the kind
/// of the instruction does.
pub open spec fn executed(s: Machine, instruction: Instruction) -> Outcome {
    performed(s, plan(instruction))
}

/// The machine after one cycle: the word at the program counter is
/// fetched, decoded and executed. If the fetch or the decoding fails,
/// nothing changes.
///
/// Opaque, so that a proof about a run does not unfold every cycle into
/// the whole instruction set: reveal it where one cycle is looked into.
#[verifier::opaque]
pub open spec fn stepped(s: Machine) -> Outcome {
    match s.mem.read_word(s.regs.pc as int) {
        Err(e) => s.fail(Fault::Fetch(e)),
        Ok(word) => match decoded(word) {
            Err(e) => s.fail(Fault::Decode(word, e)),
            Ok(instruction) => executed(s, instruction),
        },
    }
}

/// Whether the word at the program counter can be read and encodes
/// `instruction`.
///
/// Opaque, like `stepped`: `law_fetches` says when it holds.
#[verifier::opaque]
pub open spec fn fetches(s: Machine, instruction: Instruction) -> bool {
    s.mem.read_word(s.regs.pc as int) matches Ok(word) && decoded(word) == Ok::<
        Instruction,
        DecodeError,
    >(instruction)
}

/// The machine after at most `limit` cycles: it stops at the first cycle
/// that halts or fails; `Running` says that it has done neither yet.
pub open spec fn ran(s: Machine, limit: nat) -> Outcome
    decreases limit,
{
    if limit == 0 {
        Outcome { state: s, result: Ok(Status::Running) }
    } else {
        let o = stepped(s);
        if o.result == Ok::<Status, Fault>(Status::Running) {
            ran(o.state, (limit - 1) as nat)
        } else {
            o
        }
    }
}

/// Moves the program counter to the following instruction.
fn advance(registers: &mut RegisterFile)
    ensures
        final(registers)@ == old(registers)@.advance(),
{
    registers.pc = registers.pc.wrapping_add(4);
}

/// Writes the return address to `rd` and jumps to `target`.
fn link(registers: &mut RegisterFile, rd: Rindex, target: u32)
    requires
        rd < 32,
    ensures
        final(registers)@ == old(registers)@.link(rd, target),
{
    let next: u32 = registers.pc.wrapping_add(4);
    registers.write(rd, next);
    registers.pc = target;
}

/// The address that `rs1` and `imm` form.
fn address(registers: &RegisterFile, rs1: Rindex, imm: u32) -> (addr: usize)
    requires
        rs1 < 32,
    ensures
        addr == registers@.address(rs1, imm),
{
    displace(registers.read(rs1), imm) as usize
}

/// The word that `operand` stands for.
fn operand(registers: &RegisterFile, source: Operand) -> (value: u32)
    requires
        source matches Operand::Register(index) ==> index < 32,
    ensures
        value == registers@.operand(source),
{
    match source {
        Operand::Register(index) => registers.read(index),
        Operand::Immediate(value) => value,
    }
}

/// Whether `condition` holds of the registers `rs1` and `rs2`.
fn holds(registers: &RegisterFile, condition: Condition, rs1: Rindex, rs2: Rindex) -> (taken: bool)
    requires
        rs1 < 32,
        rs2 < 32,
    ensures
        taken == registers@.holds(condition, rs1, rs2),
{
    let a: u32 = registers.read(rs1);
    let b: u32 = registers.read(rs2);
    match condition {
        Condition::Equal => a == b,
        Condition::NotEqual => a != b,
        Condition::Less => less_than_signed(a, b),
        Condition::NotLess => !less_than_signed(a, b),
        Condition::LessUnsigned => a < b,
        Condition::NotLessUnsigned => a >= b,
    }
}

/// What a CSR instruction of `kind` with the operand `source` writes.
fn csr_write(registers: &RegisterFile, kind: CsrKind, source: Operand) -> (write: Option<CsrWrite>)
    requires
        source matches Operand::Register(index) ==> index < 32,
    ensures
        write == registers@.csr_write(kind, source),
{
    let value: u32 = operand(registers, source);
    let named: bool = match source {
        Operand::Register(index) => index != 0,
        Operand::Immediate(v) => v != 0,
    };
    match kind {
        CsrKind::Replace => Some(CsrWrite::Replace(value)),
        CsrKind::SetBits => if named {
            Some(CsrWrite::SetBits(value))
        } else {
            None
        },
        CsrKind::ClearBits => if named {
            Some(CsrWrite::ClearBits(value))
        } else {
            None
        },
    }
}

/// Loads `width` at `addr`.
fn load(memory: &Memory, width: LoadWidth, addr: usize) -> (r: Result<u32, MemoryError>)
    requires
        memory.wf(),
    ensures
        r == memory@.load(width, addr as int),
{
    match width {
        LoadWidth::Byte => match memory.read_byte(addr) {
            Ok(v) => Ok(extend_byte(v)),
            Err(e) => Err(e),
        },
        LoadWidth::Halfword => match memory.read_halfword(addr) {
            Ok(v) => Ok(extend_halfword(v)),
            Err(e) => Err(e),
        },
        LoadWidth::Word => memory.read_word(addr),
        LoadWidth::ByteUnsigned => memory.read_byte(addr),
        LoadWidth::HalfwordUnsigned => memory.read_halfword(addr),
    }
}

/// Stores the low bytes of `value`, `width` of them, at `addr`.
fn store(
    memory: &mut Memory,
    width: StoreWidth,
    addr: usize,
    value: u32,
) -> (r: Result<(), MemoryError>)
    requires
        old(memory).wf(),
    ensures
        r == old(memory)@.store_result(width, addr as int),
        final(memory)@ == old(memory)@.store(width, addr as int, value),
        final(memory).wf(),
{
    match width {
        StoreWidth::Byte => memory.write_byte(addr, value),
        StoreWidth::Halfword => memory.write_halfword(addr, value),
        StoreWidth::Word => memory.write_word(addr, value),
    }
}

/// Reads the register that `imm` names, writes it as `write` says, puts
/// the value read into `rd` and moves on.
fn csr_access(
    registers: &mut RegisterFile,
    rd: Rindex,
    imm: u32,
    write: Option<CsrWrite>,
) -> (r: Result<(), CsrError>)
    requires
        rd < 32,
    ensures
        old(registers)@.csr_access(rd, imm, write) matches Ok(after) ==> r is Ok
            && final(registers)@ == after,
        old(registers)@.csr_access(rd, imm, write) matches Err(e) ==> r == Err::<(), CsrError>(e)
            && final(registers)@ == old(registers)@,
{
    let index: u32 = imm & 0xFFF;
    assert(index == imm % 0x1000) by (bit_vector)
        requires
            index == imm & 0xFFF,
    ;
    let current: u32 = match registers.csr.read(index) {
        Ok(v) => v,
        Err(e) => { return Err(e); },
    };
    match write {
        None => {},
        Some(w) => {
            let value: u32 = match w {
                CsrWrite::Replace(operand) => operand,
                CsrWrite::SetBits(mask) => current | mask,
                CsrWrite::ClearBits(mask) => current & !mask,
            };
            match registers.csr.write(index, value) {
                Ok(_) => {},
                Err(e) => { return Err(e); },
            }
        },
    }
    registers.write(rd, current);
    advance(registers);
    Ok(())
}

/// The kind of an instruction, with its operands.
pub fn classify(instruction: Instruction) -> (action: Action)
    ensures
        action == plan(instruction),
{
    match instruction {
        Instruction::LUI(rd, imm) => Action::LoadUpper(rd, imm),
        Instruction::AUIPC(rd, imm) => Action::AddUpper(rd, imm),
        Instruction::JAL(rd, imm) => Action::Jump(rd, imm),
        Instruction::JALR(rd, rs1, imm) => Action::JumpRegister(rd, rs1, imm),
        Instruction::BEQ(rs1, rs2, imm) => Action::Branch(Condition::Equal, rs1, rs2, imm),
        Instruction::BNE(rs1, rs2, imm) => Action::Branch(Condition::NotEqual, rs1, rs2, imm),
        Instruction::BLT(rs1, rs2, imm) => Action::Branch(Condition::Less, rs1, rs2, imm),
        Instruction::BGE(rs1, rs2, imm) => Action::Branch(Condition::NotLess, rs1, rs2, imm),
        Instruction::BLTU(rs1, rs2, imm) => Action::Branch(Condition::LessUnsigned, rs1, rs2, imm),
        Instruction::BGEU(rs1, rs2, imm) => {
            Action::Branch(Condition::NotLessUnsigned, rs1, rs2, imm)
        },
        Instruction::LB(rd, rs1, imm) => Action::Load(LoadWidth::Byte, rd, rs1, imm),
        Instruction::LH(rd, rs1, imm) => Action::Load(LoadWidth::Halfword, rd, rs1, imm),
        Instruction::LW(rd, rs1, imm) => Action::Load(LoadWidth::Word, rd, rs1, imm),
        Instruction::LBU(rd, rs1, imm) => Action::Load(LoadWidth::ByteUnsigned, rd, rs1, imm),
        Instruction::LHU(rd, rs1, imm) => Action::Load(LoadWidth::HalfwordUnsigned, rd, rs1, imm),
        Instruction::SB(rs1, rs2, imm) => Action::Store(StoreWidth::Byte, rs1, rs2, imm),
        Instruction::SH(rs1, rs2, imm) => Action::Store(StoreWidth::Halfword, rs1, rs2, imm),
        Instruction::SW(rs1, rs2, imm) => Action::Store(StoreWidth::Word, rs1, rs2, imm),
        Instruction::ADDI(rd, rs1, imm) => immediate_op(AluOp::Add, rd, rs1, imm),
        Instruction::SLTI(rd, rs1, imm) => immediate_op(AluOp::Slt, rd, rs1, imm),
        Instruction::SLTIU(rd, rs1, imm) => immediate_op(AluOp::Sltu, rd, rs1, imm),
        Instruction::XORI(rd, rs1, imm) => immediate_op(AluOp::Xor, rd, rs1, imm),
        Instruction::ORI(rd, rs1, imm) => immediate_op(AluOp::Or, rd, rs1, imm),
        Instruction::ANDI(rd, rs1, imm) => immediate_op(AluOp::And, rd, rs1, imm),
        Instruction::SLLI(rd, rs1, imm) => immediate_op(AluOp::Sll, rd, rs1, imm),
        Instruction::SRLI(rd, rs1, imm) => immediate_op(AluOp::Srl, rd, rs1, imm),
        Instruction::SRAI(rd, rs1, imm) => immediate_op(AluOp::Sra, rd, rs1, imm),
        Instruction::ADD(rd, rs1, rs2) => register_op(AluOp::Add, rd, rs1, rs2),
        Instruction::SUB(rd, rs1, rs2) => register_op(AluOp::Sub, rd, rs1, rs2),
        Instruction::SLL(rd, rs1, rs2) => register_op(AluOp::Sll, rd, rs1, rs2),
        Instruction::SLT(rd, rs1, rs2) => register_op(AluOp::Slt, rd, rs1, rs2),
        Instruction::SLTU(rd, rs1, rs2) => register_op(AluOp::Sltu, rd, rs1, rs2),
        Instruction::XOR(rd, rs1, rs2) => register_op(AluOp::Xor, rd, rs1, rs2),
        Instruction::SRL(rd, rs1, rs2) => register_op(AluOp::Srl, rd, rs1, rs2),
        Instruction::SRA(rd, rs1, rs2) => register_op(AluOp::Sra, rd, rs1, rs2),
        Instruction::OR(rd, rs1, rs2) => register_op(AluOp::Or, rd, rs1, rs2),
        Instruction::AND(rd, rs1, rs2) => register_op(AluOp::And, rd, rs1, rs2),
        Instruction::FENCE(_, _, _) => Action::Fence,
        Instruction::ECALL() | Instruction::EBREAK() => Action::Halt,
        Instruction::MRET() => Action::Return,
        Instruction::CSRRW(rd, rs1, imm) => {
            Action::Csr(CsrKind::Replace, rd, Operand::Register(rs1), imm)
        },
        Instruction::CSRRS(rd, rs1, imm) => {
            Action::Csr(CsrKind::SetBits, rd, Operand::Register(rs1), imm)
        },
        Instruction::CSRRC(rd, rs1, imm) => {
            Action::Csr(CsrKind::ClearBits, rd, Operand::Register(rs1), imm)
        },
        Instruction::CSRRWI(rd, uimm, imm) => csr_immediate(CsrKind::Replace, rd, uimm, imm),
        Instruction::CSRRSI(rd, uimm, imm) => csr_immediate(CsrKind::SetBits, rd, uimm, imm),
        Instruction::CSRRCI(rd, uimm, imm) => csr_immediate(CsrKind::ClearBits, rd, uimm, imm),
        Instruction::MUL(rd, rs1, rs2) => register_op(AluOp::Mul, rd, rs1, rs2),
        Instruction::MULH(rd, rs1, rs2) => register_op(AluOp::Mulh, rd, rs1, rs2),
        Instruction::MULHSU(rd, rs1, rs2) => register_op(AluOp::Mulhsu, rd, rs1, rs2),
        Instruction::MULHU(rd, rs1, rs2) => register_op(AluOp::Mulhu, rd, rs1, rs2),
        Instruction::DIV(rd, rs1, rs2) => register_op(AluOp::Div, rd, rs1, rs2),
        Instruction::DIVU(rd, rs1, rs2) => register_op(AluOp::Divu, rd, rs1, rs2),
        Instruction::REM(rd, rs1, rs2) => register_op(AluOp::Rem, rd, rs1, rs2),
        Instruction::REMU(rd, rs1, rs2) => register_op(AluOp::Remu, rd, rs1, rs2),
    }
}

/// An operation on a register and an immediate.
fn immediate_op(op: AluOp, rd: Rindex, rs1: Rindex, imm: u32) -> (action: Action)
    ensures
        action == Action::Operate(op, rd, rs1, Operand::Immediate(imm)),
{
    Action::Operate(op, rd, rs1, Operand::Immediate(imm))
}

/// A CSR instruction whose operand is the five-bit immediate in its second
/// slot.
fn csr_immediate(kind: CsrKind, rd: Rindex, uimm: Rindex, imm: u32) -> (action: Action)
    ensures
        action == Action::Csr(kind, rd, Operand::Immediate(uimm as u32), imm),
{
    Action::Csr(kind, rd, Operand::Immediate(#[verifier::truncate] (uimm as u32)), imm)
}

/// An operation on two registers.
fn register_op(op: AluOp, rd: Rindex, rs1: Rindex, rs2: Rindex) -> (action: Action)
    ensures
        action == Action::Operate(op, rd, rs1, Operand::Register(rs2)),
{
    Action::Operate(op, rd, rs1, Operand::Register(rs2))
}

/// Writes `value` to `rd` and moves on.
fn set(registers: &mut RegisterFile, rd: Rindex, value: u32)
    requires
        rd < 32,
    ensures
        final(registers)@ == old(registers)@.write(rd as int, value).advance(),
{
    registers.write(rd, value);
    advance(registers);
}

/// Writes `op` of the register `rs1` and the operand `second` to `rd` and
/// moves on.
fn operate(registers: &mut RegisterFile, op: AluOp, rd: Rindex, rs1: Rindex, second: Operand)
    requires
        rd < 32,
        rs1 < 32,
        second matches Operand::Register(index) ==> index < 32,
    ensures
        final(registers)@ == old(registers)@.operate(
            op,
            rd,
            old(registers)@.read(rs1 as int),
            old(registers)@.operand(second),
        ),
{
    let a: u32 = registers.read(rs1);
    let b: u32 = operand(registers, second);
    set(registers, rd, compute(op, a, b));
}

/// Moves the program counter as a branch on `condition` does.
fn branch(registers: &mut RegisterFile, condition: Condition, rs1: Rindex, rs2: Rindex, imm: u32)
    requires
        rs1 < 32,
        rs2 < 32,
    ensures
        final(registers)@ == old(registers)@.branch(
            old(registers)@.holds(condition, rs1, rs2),
            imm,
        ),
{
    if holds(registers, condition, rs1, rs2) {
        registers.pc = displace(registers.pc, imm);
    } else {
        advance(registers);
    }
}

/// Links `rd` and jumps to the register `rs1` plus `imm`, made even.
fn jump_register(registers: &mut RegisterFile, rd: Rindex, rs1: Rindex, imm: u32)
    requires
        rd < 32,
        rs1 < 32,
    ensures
        final(registers)@ == old(registers)@.link(
            rd,
            even(displaced(old(registers)@.read(rs1 as int), imm)),
        ),
{
    let sum: u32 = displace(registers.read(rs1), imm);
    let target: u32 = sum & !1;
    assert(target == sum - sum % 2) by (bit_vector)
        requires
            target == sum & !1u32,
    ;
    link(registers, rd, target);
}

/// Loads `width` from the address that `rs1` and `imm` form into `rd`.
fn load_into(
    registers: &mut RegisterFile,
    memory: &Memory,
    width: LoadWidth,
    rd: Rindex,
    rs1: Rindex,
    imm: u32,
) -> (r: Result<Status, Fault>)
    requires
        memory.wf(),
        rd < 32,
        rs1 < 32,
    ensures
        outcome(final(registers)@, memory@, r) == machine(old(registers)@, memory@).load(
            width,
            rd,
            rs1,
            imm,
        ),
{
    let addr: usize = address(registers, rs1, imm);
    match load(memory, width, addr) {
        Ok(v) => {
            set(registers, rd, v);
            Ok(Status::Running)
        },
        Err(e) => Err(Fault::Memory(e)),
    }
}

/// Stores `width` of the register `rs2` at the address that `rs1` and
/// `imm` form.
fn store_from(
    registers: &mut RegisterFile,
    memory: &mut Memory,
    width: StoreWidth,
    rs1: Rindex,
    rs2: Rindex,
    imm: u32,
) -> (r: Result<Status, Fault>)
    requires
        old(memory).wf(),
        rs1 < 32,
        rs2 < 32,
    ensures
        outcome(final(registers)@, final(memory)@, r) == machine(
            old(registers)@,
            old(memory)@,
        ).store(width, rs1, rs2, imm),
        final(memory).wf(),
{
    let addr: usize = address(registers, rs1, imm);
    let value: u32 = registers.read(rs2);
    match store(memory, width, addr, value) {
        Ok(_) => {
            advance(registers);
            Ok(Status::Running)
        },
        Err(e) => Err(Fault::Memory(e)),
    }
}

/// Executes a CSR instruction of `kind` with the operand `source`.
fn csr_instruction(
    registers: &mut RegisterFile,
    memory: &Memory,
    kind: CsrKind,
    rd: Rindex,
    source: Operand,
    imm: u32,
) -> (r: Result<Status, Fault>)
    requires
        rd < 32,
        source matches Operand::Register(index) ==> index < 32,
    ensures
        outcome(final(registers)@, memory@, r) == machine(old(registers)@, memory@).csr(
            rd,
            imm,
            old(registers)@.csr_write(kind, source),
        ),
{
    let write: Option<CsrWrite> = csr_write(registers, kind, source);
    match csr_access(registers, rd, imm, write) {
        Ok(_) => Ok(Status::Running),
        Err(e) => Err(Fault::Csr(e)),
    }
}

/// Performs `action` on the registers and the memory.
pub fn perform(
    registers: &mut RegisterFile,
    memory: &mut Memory,
    action: Action,
) -> (r: Result<Status, Fault>)
    requires
        old(memory).wf(),
        action.wf(),
    ensures
        outcome(final(registers)@, final(memory)@, r) == performed(
            machine(old(registers)@, old(memory)@),
            action,
        ),
        final(memory).wf(),
{
    match action {
        Action::LoadUpper(rd, imm) => set(registers, rd, imm),
        Action::AddUpper(rd, imm) => set(registers, rd, registers.pc.wrapping_add(imm)),
        Action::Jump(rd, imm) => link(registers, rd, displace(registers.pc, imm)),
        Action::JumpRegister(rd, rs1, imm) => jump_register(registers, rd, rs1, imm),
        Action::Branch(condition, rs1, rs2, imm) => branch(registers, condition, rs1, rs2, imm),
        Action::Load(width, rd, rs1, imm) => {
            return load_into(registers, memory, width, rd, rs1, imm);
        },
        Action::Store(width, rs1, rs2, imm) => {
            return store_from(registers, memory, width, rs1, rs2, imm);
        },
        Action::Operate(op, rd, rs1, second) => operate(registers, op, rd, rs1, second),
        Action::Fence => advance(registers),
        Action::Halt => {
            return Ok(Status::Halted);
        },
        Action::Return => {
            registers.pc = registers.csr.mepc;
        },
        Action::Csr(kind, rd, source, imm) => {
            return csr_instruction(registers, memory, kind, rd, source, imm);
        },
    }
    Ok(Status::Running)
}

/// Executes one decoded instruction on the registers and the memory.
///
/// `Ok(Status::Halted)` comes on `ECALL` and `EBREAK`, which change
/// nothing. A fault comes where a load, a store or a CSR access fails; the
/// registers are then as before the instruction.
pub fn execute(
    registers: &mut RegisterFile,
    memory: &mut Memory,
    instruction: Instruction,
) -> (r: Result<Status, Fault>)
    requires
        old(memory).wf(),
        instruction.wf(),
    ensures
        outcome(final(registers)@, final(memory)@, r) == executed(
            machine(old(registers)@, old(memory)@),
            instruction,
        ),
        final(memory).wf(),
{
    proof {
        lemma_plan_wf(instruction);
    }
    perform(registers, memory, classify(instruction))
}

/// Runs one cycle: fetches the word at the program counter, decodes it and
/// executes the instruction.
pub fn step(registers: &mut RegisterFile, memory: &mut Memory) -> (r: Result<Status, Fault>)
    requires
        old(memory).wf(),
    ensures
        outcome(final(registers)@, final(memory)@, r) == stepped(
            machine(old(registers)@, old(memory)@),
        ),
        final(memory).wf(),
{
    proof {
        reveal(stepped);
    }
    let word: u32 = match memory.read_word(registers.pc as usize) {
        Ok(word) => word,
        Err(e) => { return Err(Fault::Fetch(e)); },
    };
    match decode(word) {
        Ok(instruction) => execute(registers, memory, instruction),
        Err(e) => Err(Fault::Decode(word, e)),
    }
}

/// One cycle of a run that has cycles left: if the cycle neither halts nor
/// fails, the run goes on from where it leads with one cycle less; else
/// the run ends as the cycle does.
pub proof fn law_run_unfolds(s: Machine, limit: nat)
    requires
        limit > 0,
    ensures
        ran(s, limit) == (if stepped(s).result == Ok::<Status, Fault>(Status::Running) {
            ran(stepped(s).state, (limit - 1) as nat)
        } else {
            stepped(s)
        }),
{
}

/// Runs cycles until the machine halts or fails, but at most `limit` of
/// them. `Ok(Status::Running)` says that the limit was reached first.
pub fn run(
    registers: &mut RegisterFile,
    memory: &mut Memory,
    limit: u64,
) -> (r: Result<Status, Fault>)
    requires
        old(memory).wf(),
    ensures
        outcome(final(registers)@, final(memory)@, r) == ran(
            machine(old(registers)@, old(memory)@),
            limit as nat,
        ),
        final(memory).wf(),
{
    let ghost start = machine(registers@, memory@);
    let mut done: u64 = 0;
    while done < limit
        invariant
            done <= limit,
            memory.wf(),
            start == machine(old(registers)@, old(memory)@),
            ran(start, limit as nat) == ran(machine(registers@, memory@), (limit - done) as nat),
        decreases limit - done,
    {
        proof {
            law_run_unfolds(machine(registers@, memory@), (limit - done) as nat);
        }
        match step(registers, memory) {
            Ok(Status::Running) => {
                done = done + 1;
            },
            other => {
                return other;
            },
        }
    }
    Ok(Status::Running)
}

/// `ADDI` with immediate 0 copies `rs1` to `rd` and does nothing else but
/// the step to the following instruction.
pub proof fn law_addi_zero_moves(s: Machine, rd: Rindex, rs1: Rindex)
    ensures
        executed(s, Instruction::ADDI(rd, rs1, 0)) == s.proceed(
            s.regs.write(rd as int, s.x(rs1)).advance(),
        ),
{
}

/// `JAL x0, 0` changes nothing: the machine goes on at the same program
/// counter.
pub proof fn law_jump_to_self(s: Machine)
    ensures
        executed(s, Instruction::JAL(0, 0)) == s.proceed(s.regs),
        s.proceed(s.regs).state == s,
{
}

/// A machine fetches the instruction that the word at its program counter
/// encodes.
pub proof fn law_fetches(s: Machine, word: u32, instruction: Instruction)
    requires
        s.mem.read_word(s.regs.pc as int) == Ok::<u32, MemoryError>(word),
        decoded(word) == Ok::<Instruction, DecodeError>(instruction),
    ensures
        fetches(s, instruction),
{
    reveal(fetches);
}

/// A cycle executes the instruction that the machine fetches.
pub proof fn law_cycle_executes(s: Machine, instruction: Instruction)
    requires
        fetches(s, instruction),
    ensures
        stepped(s) == executed(s, instruction),
{
    reveal(fetches);
    reveal(stepped);
}

/// A machine that fetches `JAL x0, 0` never halts nor fails, and never
/// changes: every run, however long, leaves it as it is.
pub proof fn law_jump_to_self_loops(s: Machine, limit: nat)
    requires
        fetches(s, Instruction::JAL(0, 0)),
    ensures
        stepped(s) == s.proceed(s.regs),
        ran(s, limit) == s.proceed(s.regs),
    decreases limit,
{
    law_cycle_executes(s, Instruction::JAL(0, 0));
    law_jump_to_self(s);
    if limit > 0 {
        law_jump_to_self_loops(s, (limit - 1) as nat);
    }
}

/// A branch changes the program counter only: taken, to the signed
/// distance of its immediate from the branch itself, so that the immediate
/// 0 leads back to the branch and the immediate -4 to the instruction
/// before it; not taken, to the following instruction.
pub proof fn law_branch_target(s: Machine, condition: Condition, rs1: Rindex, rs2: Rindex, imm: u32)
    ensures
        performed(s, Action::Branch(condition, rs1, rs2, imm)) == s.proceed(
            s.regs.jump(
                if s.regs.holds(condition, rs1, rs2) {
                    wrap(s.regs.pc + signed(imm))
                } else {
                    wrap(s.regs.pc + 4)
                },
            ),
        ),
        wrap(s.regs.pc + signed(0)) == s.regs.pc,
        wrap(s.regs.pc + signed(0xffff_fffc)) == wrap(s.regs.pc - 4),
{
}

/// An operation or a fence changes no memory and moves on to the following
/// instruction.
proof fn lemma_moves_on(s: Machine, instruction: Instruction)
    requires
        plan(instruction) is Operate || plan(instruction) is Fence,
    ensures
        executed(s, instruction).result == Ok::<Status, Fault>(Status::Running),
        executed(s, instruction).state.regs.pc == s.regs.next_pc(),
        executed(s, instruction).state.mem == s.mem,
{
}

/// Two cycles of which the first goes on are the second cycle after the
/// first.
proof fn lemma_two_cycles(s: Machine)
    requires
        stepped(s).result == Ok::<Status, Fault>(Status::Running),
    ensures
        ran(s, 2) == stepped(stepped(s).state),
{
    law_run_unfolds(s, 2);
    law_run_unfolds(stepped(s).state, 1);
}

/// A cycle that fetches the branch `BEQ x0, x0, -4` leads to the
/// instruction before it.
proof fn lemma_branch_back(s: Machine)
    requires
        fetches(s, Instruction::BEQ(0, 0, 0xffff_fffc)),
    ensures
        stepped(s) == s.proceed(s.regs.jump(wrap(s.regs.pc - 4))),
{
    law_cycle_executes(s, Instruction::BEQ(0, 0, 0xffff_fffc));
    law_branch_target(s, Condition::Equal, 0, 0, 0xffff_fffc);
}

/// A cycle that fetches an operation or a fence changes no memory and
/// moves on to the following instruction.
proof fn lemma_cycle_moves_on(s: Machine, instruction: Instruction)
    requires
        fetches(s, instruction),
        plan(instruction) is Operate || plan(instruction) is Fence,
    ensures
        stepped(s).result == Ok::<Status, Fault>(Status::Running),
        stepped(s).state.regs.pc == wrap(s.regs.pc + 4),
        stepped(s).state.mem == s.mem,
{
    law_cycle_executes(s, instruction);
    lemma_moves_on(s, instruction);
}

/// A branch that is always taken, with the immediate -4, leads to the
/// instruction before it; if that is an operation or a fence, and so moves
/// on, the second cycle leads back to the branch, in an unchanged memory.
pub proof fn law_branch_back_by_four(s: Machine, before: Instruction)
    requires
        fetches(s, Instruction::BEQ(0, 0, 0xffff_fffc)),
        fetches(machine(s.regs.jump(wrap(s.regs.pc - 4)), s.mem), before),
        plan(before) is Operate || plan(before) is Fence,
    ensures
        stepped(s) == s.proceed(s.regs.jump(wrap(s.regs.pc - 4))),
        ran(s, 2).result == Ok::<Status, Fault>(Status::Running),
        ran(s, 2).state.regs.pc == s.regs.pc,
        ran(s, 2).state.mem == s.mem,
{
    let back = machine(s.regs.jump(wrap(s.regs.pc - 4)), s.mem);
    lemma_branch_back(s);
    assert(stepped(s).state == back);
    lemma_cycle_moves_on(back, before);
    lemma_two_cycles(s);
}

/// Only `ECALL` and `EBREAK` halt, and they change nothing.
pub proof fn law_halt(s: Machine, instruction: Instruction)
    ensures
        executed(s, instruction).result == Ok::<Status, Fault>(Status::Halted) <==> instruction
            is ECALL || instruction is EBREAK,
        executed(s, instruction).result == Ok::<Status, Fault>(Status::Halted) ==> executed(
            s,
            instruction,
        ).state == s,
{
}

/// What every load keeps.
proof fn lemma_load_invariants(s: Machine, width: LoadWidth, rd: Rindex, rs1: Rindex, imm: u32)
    requires
        s.regs.wf(),
        rd < 32,
    ensures
        s.load(width, rd, rs1, imm).state.regs.wf(),
        s.load(width, rd, rs1, imm).state.mem == s.mem,
        s.load(width, rd, rs1, imm).result is Err ==> s.load(width, rd, rs1, imm).state == s,
{
}

/// What every store keeps.
proof fn lemma_store_invariants(s: Machine, width: StoreWidth, rs1: Rindex, rs2: Rindex, imm: u32)
    ensures
        s.store(width, rs1, rs2, imm).state.regs.pc == (if s.store(width, rs1, rs2, imm).result
            is Err {
            s.regs.pc
        } else {
            s.regs.next_pc()
        }),
        s.store(width, rs1, rs2, imm).state.regs.x == s.regs.x,
        s.store(width, rs1, rs2, imm).state.regs.csr == s.regs.csr,
        s.store(width, rs1, rs2, imm).state.mem.same_regions(s.mem),
        s.mem.wf() ==> s.store(width, rs1, rs2, imm).state.mem.wf(),
{
    law_write_keeps_regions(s.mem, s.regs.address(rs1, imm), s.regs.read(rs2 as int));
}

/// What every CSR instruction keeps.
proof fn lemma_csr_invariants(s: Machine, rd: Rindex, imm: u32, write: Option<CsrWrite>)
    requires
        s.regs.wf(),
        rd < 32,
    ensures
        s.csr(rd, imm, write).state.regs.wf(),
        s.csr(rd, imm, write).state.mem == s.mem,
        s.csr(rd, imm, write).result is Err ==> s.csr(rd, imm, write).state == s,
{
}

/// What every action keeps.
proof fn lemma_performed_invariants(s: Machine, action: Action)
    requires
        s.regs.wf(),
        action.wf(),
    ensures
        performed(s, action).state.regs.wf(),
        performed(s, action).state.mem.same_regions(s.mem),
        s.mem.wf() ==> performed(s, action).state.mem.wf(),
        performed(s, action).result is Err ==> performed(s, action).state.regs == s.regs,
{
    match action {
        Action::Load(width, rd, rs1, imm) => {
            lemma_load_invariants(s, width, rd, rs1, imm);
        },
        Action::Store(width, rs1, rs2, imm) => {
            lemma_store_invariants(s, width, rs1, rs2, imm);
            assert(performed(s, action).result is Err ==> performed(s, action).state.regs
                == s.regs);
        },
        Action::Csr(kind, rd, source, imm) => {
            lemma_csr_invariants(s, rd, imm, s.regs.csr_write(kind, source));
        },
        _ => {},
    }
}

/// What every instruction keeps: register 0 is zero, the regions of the
/// memory are where they were, the ROM holds what it held, and the memory
/// is well-formed. An instruction that fails leaves the registers as they
/// were.
pub proof fn law_execution_invariants(s: Machine, instruction: Instruction)
    requires
        s.regs.wf(),
        instruction.wf(),
    ensures
        executed(s, instruction).state.regs.wf(),
        executed(s, instruction).state.mem.same_regions(s.mem),
        s.mem.wf() ==> executed(s, instruction).state.mem.wf(),
        executed(s, instruction).result is Err ==> executed(s, instruction).state.regs == s.regs,
{
    lemma_plan_wf(instruction);
    lemma_performed_invariants(s, plan(instruction));
}

/// The kind of a well-formed instruction is well-formed.
proof fn lemma_plan_wf(instruction: Instruction)
    requires
        instruction.wf(),
    ensures
        plan(instruction).wf(),
{
}

/// What every cycle and every run keeps: the same as every instruction.
pub proof fn law_run_invariants(s: Machine, limit: nat)
    requires
        s.regs.wf(),
    ensures
        stepped(s).state.regs.wf(),
        stepped(s).state.mem.same_regions(s.mem),
        s.mem.wf() ==> stepped(s).state.mem.wf(),
        ran(s, limit).state.regs.wf(),
        ran(s, limit).state.mem.same_regions(s.mem),
        s.mem.wf() ==> ran(s, limit).state.mem.wf(),
    decreases limit,
{
    reveal(stepped);
    match s.mem.read_word(s.regs.pc as int) {
        Ok(word) => {
            if decoded(word) is Ok {
                law_decode_operands(word);
                law_decode_errors(word);
                law_execution_invariants(s, decoded(word)->Ok_0);
            }
        },
        Err(_) => {},
    }
    if limit > 0 && stepped(s).result == Ok::<Status, Fault>(Status::Running) {
        law_run_invariants(stepped(s).state, (limit - 1) as nat);
    }
}

} // verus!
