//! The architectural state: the control and status registers, the general
//! registers with the program counter, and the memory map.

use vstd::prelude::*;
use crate::decoder::Rindex;

verus! {

/// What a write to a control and status register does.
pub enum CsrPolicy {
    /// The write fails.
    ReadOnly,
    /// The write is accepted and dropped.
    Ignored,
    /// The write is accepted and dropped, and the register reads as zero.
    WarlZero,
    /// The write is stored if the value is a multiple of four, and fails
    /// otherwise.
    Aligned,
    /// The write is stored.
    Writable,
}

/// Why an access to a control and status register failed.
#[derive(Clone, Copy, Debug, PartialEq, Eq, Structural)]
pub enum CsrError {
    /// A write to the read-only register at this address.
    ReadOnly(u32),
    /// A write of this value, which is not a multiple of four, to `mtvec`.
    Unaligned(u32),
    /// An access to this address, at which there is no register.
    Unrecognized(u32),
}

/// The policy of the register at address `index`, if there is one.
pub open spec fn csr_policy(index: u32) -> Option<CsrPolicy> {
    if 0xF11 <= index <= 0xF15 {
        Some(CsrPolicy::ReadOnly)
    } else if index == 0x300 || 0x302 <= index <= 0x304 || index == 0x306 || index == 0x310
        || index == 0x343 || index == 0x344 || index == 0x34A || index == 0x34B {
        Some(CsrPolicy::Ignored)
    } else if index == 0x301 {
        Some(CsrPolicy::WarlZero)
    } else if index == 0x305 {
        Some(CsrPolicy::Aligned)
    } else if 0x340 <= index <= 0x342 {
        Some(CsrPolicy::Writable)
    } else {
        None
    }
}

/// The machine-mode control and status registers.
#[derive(Clone, Copy, Debug, PartialEq, Eq, Structural)]
pub struct CSR {
    /* Machine Information Registers */
    pub mvendorid: u32,
    pub marchid: u32,
    pub mimpid: u32,
    pub mhartid: u32,
    pub mconfigptr: u32,
    /* Machine Trap Setup */
    pub mstatus: u32,
    pub misa: u32,
    pub medeleg: u32,
    pub mideleg: u32,
    pub mie: u32,
    pub mtvec: u32,
    pub mcounteren: u32,
    pub mstatush: u32,
    /* Machine Trap Handling */
    pub mscratch: u32,
    pub mepc: u32,
    pub mcause: u32,
    pub mtval: u32,
    pub mip: u32,
    pub mtinst: u32,
    pub mtval2: u32,
}

impl CSR {
    /// The file with every register zero.
    pub open spec fn zeroed() -> CSR {
        CSR {
            mvendorid: 0,
            marchid: 0,
            mimpid: 0,
            mhartid: 0,
            mconfigptr: 0,
            mstatus: 0,
            misa: 0,
            medeleg: 0,
            mideleg: 0,
            mie: 0,
            mtvec: 0,
            mcounteren: 0,
            mstatush: 0,
            mscratch: 0,
            mepc: 0,
            mcause: 0,
            mtval: 0,
            mip: 0,
            mtinst: 0,
            mtval2: 0,
        }
    }

    /// The value held for the register at address `index`; zero where there
    /// is no register.
    pub open spec fn stored(self, index: u32) -> u32 {
        if index == 0xF11 {
            self.mvendorid
        } else if index == 0xF12 {
            self.marchid
        } else if index == 0xF13 {
            self.mimpid
        } else if index == 0xF14 {
            self.mhartid
        } else if index == 0xF15 {
            self.mconfigptr
        } else if index == 0x300 {
            self.mstatus
        } else if index == 0x301 {
            self.misa
        } else if index == 0x302 {
            self.medeleg
        } else if index == 0x303 {
            self.mideleg
        } else if index == 0x304 {
            self.mie
        } else if index == 0x305 {
            self.mtvec
        } else if index == 0x306 {
            self.mcounteren
        } else if index == 0x310 {
            self.mstatush
        } else if index == 0x340 {
            self.mscratch
        } else if index == 0x341 {
            self.mepc
        } else if index == 0x342 {
            self.mcause
        } else if index == 0x343 {
            self.mtval
        } else if index == 0x344 {
            self.mip
        } else if index == 0x34A {
            self.mtinst
        } else if index == 0x34B {
            self.mtval2
        } else {
            0
        }
    }

    /// The file that holds `value` for the register at `index` and is
    /// otherwise as `self`. Only the three writable registers and `mtvec`
    /// are ever stored to.
    pub open spec fn with(self, index: u32, value: u32) -> CSR {
        if index == 0x305 {
            CSR { mtvec: value, ..self }
        } else if index == 0x340 {
            CSR { mscratch: value, ..self }
        } else if index == 0x341 {
            CSR { mepc: value, ..self }
        } else if index == 0x342 {
            CSR { mcause: value, ..self }
        } else {
            self
        }
    }

    /// What a read of the register at `index` gives.
    pub open spec fn read_result(self, index: u32) -> Result<u32, CsrError> {
        match csr_policy(index) {
            None => Err(CsrError::Unrecognized(index)),
            Some(CsrPolicy::WarlZero) => Ok(0),
            Some(_) => Ok(self.stored(index)),
        }
    }

    /// Whether a write of `value` to the register at `index` succeeds.
    pub open spec fn write_result(self, index: u32, value: u32) -> Result<(), CsrError> {
        match csr_policy(index) {
            None => Err(CsrError::Unrecognized(index)),
            Some(CsrPolicy::ReadOnly) => Err(CsrError::ReadOnly(index)),
            Some(CsrPolicy::Aligned) => if value % 4 == 0 {
                Ok(())
            } else {
                Err(CsrError::Unaligned(value))
            },
            Some(_) => Ok(()),
        }
    }

    /// The file after a write of `value` to the register at `index`: a
    /// write that fails, or that the policy drops, changes nothing.
    pub open spec fn after_write(self, index: u32, value: u32) -> CSR {
        match csr_policy(index) {
            Some(CsrPolicy::Writable) => self.with(index, value),
            Some(CsrPolicy::Aligned) => if value % 4 == 0 {
                self.with(index, value)
            } else {
                self
            },
            _ => self,
        }
    }

    /// Reads the register at address `index`.
    pub fn read(&self, index: u32) -> (r: Result<u32, CsrError>)
        ensures
            r == self.read_result(index),
    {
        match index {
            0xF11 => Ok(self.mvendorid),
            0xF12 => Ok(self.marchid),
            0xF13 => Ok(self.mimpid),
            0xF14 => Ok(self.mhartid),
            0xF15 => Ok(self.mconfigptr),
            0x300 => Ok(self.mstatus),
            /* WARL / zero indicates misa is not implemented */
            0x301 => Ok(0),
            0x302 => Ok(self.medeleg),
            0x303 => Ok(self.mideleg),
            0x304 => Ok(self.mie),
            0x305 => Ok(self.mtvec),
            0x306 => Ok(self.mcounteren),
            0x310 => Ok(self.mstatush),
            0x340 => Ok(self.mscratch),
            0x341 => Ok(self.mepc),
            0x342 => Ok(self.mcause),
            0x343 => Ok(self.mtval),
            0x344 => Ok(self.mip),
            0x34A => Ok(self.mtinst),
            0x34B => Ok(self.mtval2),
            _ => Err(CsrError::Unrecognized(index)),
        }
    }

    /// Writes `value` to the register at address `index`, as the policy of
    /// that register says.
    pub fn write(&mut self, index: u32, value: u32) -> (r: Result<(), CsrError>)
        ensures
            r == old(self).write_result(index, value),
            *final(self) == old(self).after_write(index, value),
    {
        match index {
            0xF11 | 0xF12 | 0xF13 | 0xF14 | 0xF15 => Err(CsrError::ReadOnly(index)),
            0x300 | 0x301 | 0x302 | 0x303 | 0x304 | 0x306 | 0x310 => Ok(()),
            0x343 | 0x344 | 0x34A | 0x34B => Ok(()),
            0x305 => {
                if value % 4 != 0 {
                    return Err(CsrError::Unaligned(value));
                }
                self.mtvec = value;
                Ok(())
            },
            0x340 => {
                self.mscratch = value;
                Ok(())
            },
            0x341 => {
                self.mepc = value;
                Ok(())
            },
            0x342 => {
                self.mcause = value;
                Ok(())
            },
            _ => Err(CsrError::Unrecognized(index)),
        }
    }
}

impl Default for CSR {
    /// The file with every register zero.
    fn default() -> (r: Self)
        ensures
            r == CSR::zeroed(),
    {
        CSR {
            mvendorid: 0,
            marchid: 0,
            mimpid: 0,
            mhartid: 0,
            mconfigptr: 0,
            mstatus: 0,
            misa: 0,
            medeleg: 0,
            mideleg: 0,
            mie: 0,
            mtvec: 0,
            mcounteren: 0,
            mstatush: 0,
            mscratch: 0,
            mepc: 0,
            mcause: 0,
            mtval: 0,
            mip: 0,
            mtinst: 0,
            mtval2: 0,
        }
    }
}

/// A write to a read-only register fails, and leaves every stored value as
/// it was.
pub proof fn law_read_only_csr(csr: CSR, index: u32, value: u32)
    requires
        csr_policy(index) == Some(CsrPolicy::ReadOnly),
    ensures
        csr.write_result(index, value) == Err::<(), _>(CsrError::ReadOnly(index)),
        csr.after_write(index, value) == csr,
{
}

/// A write that fails for any reason leaves the file as it was.
pub proof fn law_failed_csr_write(csr: CSR, index: u32, value: u32)
    requires
        csr.write_result(index, value) is Err,
    ensures
        csr.after_write(index, value) == csr,
{
}

/// A write to a register whose policy drops writes succeeds and changes
/// nothing.
pub proof fn law_dropped_csr_write(csr: CSR, index: u32, value: u32)
    requires
        csr_policy(index) == Some(CsrPolicy::Ignored) || csr_policy(index) == Some(
            CsrPolicy::WarlZero,
        ),
    ensures
        csr.write_result(index, value) is Ok,
        csr.after_write(index, value) == csr,
{
}

/// A register whose policy is to read as zero does so in every state.
pub proof fn law_warl_zero_csr(csr: CSR, index: u32)
    requires
        csr_policy(index) == Some(CsrPolicy::WarlZero),
    ensures
        csr.read_result(index) == Ok::<u32, CsrError>(0),
{
}

/// A write that stores is read back, and changes the value of no other
/// register.
pub proof fn law_stored_csr_write(csr: CSR, index: u32, value: u32, other: u32)
    requires
        csr_policy(index) == Some(CsrPolicy::Writable) || (csr_policy(index) == Some(
            CsrPolicy::Aligned,
        ) && value % 4 == 0),
    ensures
        csr.write_result(index, value) is Ok,
        csr.after_write(index, value).read_result(index) == Ok::<u32, CsrError>(value),
        other != index ==> csr.after_write(index, value).read_result(other) == csr.read_result(
            other,
        ),
{
}

/// An access to an address that names no register fails.
pub proof fn law_unrecognized_csr(csr: CSR, index: u32, value: u32)
    requires
        csr_policy(index) is None,
    ensures
        csr.read_result(index) == Err::<u32, _>(CsrError::Unrecognized(index)),
        csr.write_result(index, value) == Err::<(), _>(CsrError::Unrecognized(index)),
        csr.after_write(index, value) == csr,
{
}

/// The general registers as a mapping from index to word, with the program
/// counter and the control and status registers.
pub struct RegisterView {
    /// The 32 registers; entry 0 is zero.
    pub x: Seq<u32>,
    pub csr: CSR,
    pub pc: u32,
}

impl RegisterView {
    /// There are 32 registers, and register 0 holds zero.
    pub open spec fn wf(self) -> bool {
        self.x.len() == 32 && self.x[0] == 0
    }

    /// The value of register `index`.
    pub open spec fn read(self, index: int) -> u32 {
        self.x[index]
    }

    /// The state after a write of `value` to register `index`: a write to
    /// register 0 is dropped.
    pub open spec fn write(self, index: int, value: u32) -> RegisterView {
        if index == 0 {
            self
        } else {
            RegisterView { x: self.x.update(index, value), ..self }
        }
    }

    /// The state with the program counter at `pc`.
    pub open spec fn jump(self, pc: u32) -> RegisterView {
        RegisterView { pc, ..self }
    }

    /// The state with the control and status registers `csr`.
    pub open spec fn with_csr(self, csr: CSR) -> RegisterView {
        RegisterView { csr, ..self }
    }

    /// The state in which a run starts: the program counter at `pc`, the
    /// stack pointer `x2` at `sp`, every other register and every control
    /// and status register zero.
    pub open spec fn initial(pc: u32, sp: u32) -> RegisterView {
        RegisterView {
            x: Seq::new(32, |i: int| if i == 2 { sp } else { 0u32 }),
            csr: CSR::zeroed(),
            pc,
        }
    }
}

/// The general registers, the control and status registers and the program
/// counter. Register 0 reads as zero whatever `regs[0]` holds.
#[derive(Debug)]
pub struct RegisterFile {
    pub regs: [u32; 32],
    pub csr: CSR,
    pub pc: u32,
}

impl View for RegisterFile {
    type V = RegisterView;

    open spec fn view(&self) -> RegisterView {
        RegisterView {
            x: Seq::new(32, |i: int| if i == 0 { 0u32 } else { self.regs[i] }),
            csr: self.csr,
            pc: self.pc,
        }
    }
}

impl RegisterFile {
    /// The value of register `index`; zero for register 0.
    pub fn read(&self, index: Rindex) -> (value: u32)
        requires
            index < 32,
        ensures
            value == self@.read(index as int),
    {
        if index == 0 {
            0
        } else {
            self.regs[index]
        }
    }

    /// Writes `value` to register `index`; a write to register 0 is dropped.
    pub fn write(&mut self, index: Rindex, value: u32)
        requires
            index < 32,
        ensures
            final(self)@ == old(self)@.write(index as int, value),
    {
        if index > 0 {
            self.regs[index] = value;
        }
        assert(self@.x =~= old(self)@.write(index as int, value).x);
    }

    /// The state in which a run on `memory` starts: the program counter at
    /// the base of the ROM, the stack pointer `x2` just past the end of the
    /// RAM, everything else zero. Both are taken modulo 2^32.
    pub fn reset(memory: &Memory) -> (r: Self)
        requires
            memory.wf(),
        ensures
            r@ == RegisterView::initial(
                (memory.rom_base as int % 0x1_0000_0000) as u32,
                ((memory.ram_base + memory.ram.len()) % 0x1_0000_0000) as u32,
            ),
    {
        let top: usize = memory.ram_base + memory.ram.len();
        let sp: u32 = #[verifier::truncate] (top as u32);
        let pc: u32 = #[verifier::truncate] (memory.rom_base as u32);
        let base: usize = memory.rom_base;
        assert(sp == (top as u64) % 0x1_0000_0000 && pc == (base as u64) % 0x1_0000_0000)
            by (bit_vector)
            requires
                sp == top as u32,
                pc == base as u32,
        ;
        let mut r = RegisterFile::default();
        r.regs[2] = sp;
        r.pc = pc;
        assert(r@.x =~= RegisterView::initial(pc, sp).x);
        r
    }
}

impl Default for RegisterFile {
    /// Every register, the program counter and every control and status
    /// register zero.
    fn default() -> (r: Self)
        ensures
            r@ == RegisterView::initial(0, 0),
            r.regs@ == Seq::new(32, |i: int| 0u32),
    {
        let r = RegisterFile { regs: [0u32; 32], csr: CSR::default(), pc: 0 };
        assert(r@.x =~= RegisterView::initial(0, 0).x);
        r
    }
}

/// The registers of every register file are well-formed: whatever the
/// array holds, there are 32 of them and register 0 is zero.
pub proof fn law_register_file_wf(registers: RegisterFile)
    ensures
        registers@.wf(),
{
}

/// Register 0 reads as zero after any write, to it or to another register;
/// a write to another register is read back, and changes no third register,
/// nor the program counter, nor a control and status register.
pub proof fn law_register_write(s: RegisterView, index: int, value: u32, other: int)
    requires
        s.wf(),
        0 <= index < 32,
        0 <= other < 32,
    ensures
        s.write(index, value).wf(),
        s.write(index, value).read(0) == 0,
        s.write(0, value) == s,
        index != 0 ==> s.write(index, value).read(index) == value,
        other != index ==> s.write(index, value).read(other) == s.read(other),
        s.write(index, value).pc == s.pc,
        s.write(index, value).csr == s.csr,
{
}

/// Why an access to memory failed. Each holds the address of the byte at
/// which it failed.
#[derive(Clone, Copy, Debug, PartialEq, Eq, Structural)]
pub enum MemoryError {
    /// The address lies in no region.
    Unmapped(usize),
    /// A read from the output device.
    WriteOnly(usize),
    /// A write to the ROM.
    ReadOnly(usize),
}

/// The memory map as mathematical values: three regions, each a base
/// address and its bytes or, for the output device, its length; and the
/// bytes that were written to the device, oldest first.
pub struct MemoryView {
    pub io_base: int,
    pub io_len: int,
    pub ram_base: int,
    pub ram: Seq<u8>,
    pub rom_base: int,
    pub rom: Seq<u8>,
    pub output: Seq<u8>,
}

impl MemoryView {
    /// Whether `addr` lies in the output device.
    pub open spec fn is_io(self, addr: int) -> bool {
        self.io_base <= addr < self.io_base + self.io_len
    }

    /// Whether `addr` lies in the RAM.
    pub open spec fn is_ram(self, addr: int) -> bool {
        self.ram_base <= addr < self.ram_base + self.ram.len()
    }

    /// Whether `addr` lies in the ROM.
    pub open spec fn is_rom(self, addr: int) -> bool {
        self.rom_base <= addr < self.rom_base + self.rom.len()
    }

    /// Every region lies within the addresses that a `usize` can hold and
    /// ends below the last of them, and no address lies in two regions.
    pub open spec fn wf(self) -> bool {
        &&& 0 <= self.io_base && 0 <= self.io_len && self.io_base + self.io_len <= usize::MAX
        &&& 0 <= self.ram_base && self.ram_base + self.ram.len() <= usize::MAX
        &&& 0 <= self.rom_base && self.rom_base + self.rom.len() <= usize::MAX
        &&& forall|a: int| !(#[trigger] self.is_io(a) && self.is_ram(a))
        &&& forall|a: int| !(#[trigger] self.is_io(a) && self.is_rom(a))
        &&& forall|a: int| !(#[trigger] self.is_ram(a) && self.is_rom(a))
    }

    /// Both memories have the same three regions, and the same ROM.
    pub open spec fn same_regions(self, other: MemoryView) -> bool {
        &&& self.io_base == other.io_base
        &&& self.io_len == other.io_len
        &&& self.ram_base == other.ram_base
        &&& self.ram.len() == other.ram.len()
        &&& self.rom_base == other.rom_base
        &&& self.rom == other.rom
    }

    /// The layout of this machine: the ROM at `0x2000_0000`, the one-byte
    /// output device at `0x6000_0000`, the RAM at `0x8000_0000`, and
    /// nothing written to the device yet.
    pub open spec fn standard(rom: Seq<u8>, ram: Seq<u8>) -> MemoryView {
        MemoryView {
            io_base: 0x6000_0000,
            io_len: 1,
            ram_base: 0x8000_0000,
            ram,
            rom_base: 0x2000_0000,
            rom,
            output: Seq::empty(),
        }
    }

    /// The byte at `addr`, zero-extended: from the RAM or the ROM. The
    /// output device cannot be read.
    pub open spec fn read_byte(self, addr: int) -> Result<u32, MemoryError> {
        if self.is_ram(addr) {
            Ok(self.ram[addr - self.ram_base] as u32)
        } else if self.is_rom(addr) {
            Ok(self.rom[addr - self.rom_base] as u32)
        } else if self.is_io(addr) {
            Err(MemoryError::WriteOnly(addr as usize))
        } else {
            Err(MemoryError::Unmapped(addr as usize))
        }
    }

    /// The two bytes at `addr` and `addr + 1`, the lower address the less
    /// significant; the error of the first byte that cannot be read.
    pub open spec fn read_halfword(self, addr: int) -> Result<u32, MemoryError> {
        match self.read_byte(addr) {
            Err(e) => Err(e),
            Ok(low) => match self.read_byte(addr + 1) {
                Err(e) => Err(e),
                Ok(high) => Ok((low + 0x100 * high) as u32),
            },
        }
    }

    /// The four bytes from `addr` to `addr + 3`, the lowest address the
    /// least significant; the error of the first byte that cannot be read.
    pub open spec fn read_word(self, addr: int) -> Result<u32, MemoryError> {
        match self.read_halfword(addr) {
            Err(e) => Err(e),
            Ok(low) => match self.read_halfword(addr + 2) {
                Err(e) => Err(e),
                Ok(high) => Ok((low + 0x1_0000 * high) as u32),
            },
        }
    }

    /// Whether a write of one byte to `addr` succeeds: into the RAM or to
    /// the output device.
    pub open spec fn write_byte_result(self, addr: int) -> Result<(), MemoryError> {
        if self.is_ram(addr) || self.is_io(addr) {
            Ok(())
        } else if self.is_rom(addr) {
            Err(MemoryError::ReadOnly(addr as usize))
        } else {
            Err(MemoryError::Unmapped(addr as usize))
        }
    }

    /// The memory after a write of the low byte of `value` to `addr`: the
    /// byte is stored in the RAM, or appended to what the device has put
    /// out; a write that fails changes nothing.
    pub open spec fn write_byte(self, addr: int, value: u32) -> MemoryView {
        if self.is_ram(addr) {
            MemoryView { ram: self.ram.update(addr - self.ram_base, (value % 0x100) as u8), ..self }
        } else if self.is_io(addr) {
            MemoryView { output: self.output.push((value % 0x100) as u8), ..self }
        } else {
            self
        }
    }

    /// Whether a write of two bytes at `addr` succeeds; the error of the
    /// first byte that cannot be written.
    pub open spec fn write_halfword_result(self, addr: int) -> Result<(), MemoryError> {
        match self.write_byte_result(addr) {
            Err(e) => Err(e),
            Ok(_) => self.write_byte_result(addr + 1),
        }
    }

    /// The memory after a write of the low two bytes of `value` at `addr`,
    /// the less significant byte first. The bytes are written in order, up
    /// to the first that fails.
    pub open spec fn write_halfword(self, addr: int, value: u32) -> MemoryView {
        if self.write_byte_result(addr) is Err {
            self
        } else {
            self.write_byte(addr, value).write_byte(addr + 1, value / 0x100)
        }
    }

    /// Whether a write of four bytes at `addr` succeeds; the error of the
    /// first byte that cannot be written.
    pub open spec fn write_word_result(self, addr: int) -> Result<(), MemoryError> {
        match self.write_halfword_result(addr) {
            Err(e) => Err(e),
            Ok(_) => self.write_halfword_result(addr + 2),
        }
    }

    /// The memory after a write of the four bytes of `value` at `addr`, the
    /// least significant byte first. The bytes are written in order, up to
    /// the first that fails.
    pub open spec fn write_word(self, addr: int, value: u32) -> MemoryView {
        if self.write_halfword_result(addr) is Err {
            self.write_halfword(addr, value)
        } else {
            self.write_halfword(addr, value).write_halfword(addr + 2, value / 0x1_0000)
        }
    }
}

/// No write moves or resizes a region: the memory after it has the regions
/// of the memory before it, and is well-formed if that was.
pub proof fn law_write_keeps_regions(m: MemoryView, addr: int, value: u32)
    ensures
        m.write_byte(addr, value).same_regions(m),
        m.write_halfword(addr, value).same_regions(m),
        m.write_word(addr, value).same_regions(m),
        m.wf() ==> m.write_byte(addr, value).wf() && m.write_halfword(addr, value).wf()
            && m.write_word(addr, value).wf(),
{
    if m.wf() {
        lemma_same_regions_wf(m, m.write_byte(addr, value));
        lemma_same_regions_wf(m, m.write_halfword(addr, value));
        lemma_same_regions_wf(m, m.write_word(addr, value));
    }
}

/// Well-formedness speaks of the regions only.
proof fn lemma_same_regions_wf(m: MemoryView, n: MemoryView)
    requires
        m.wf(),
        n.same_regions(m),
    ensures
        n.wf(),
{
    assert forall|a: int| !(#[trigger] n.is_io(a) && n.is_ram(a)) by {
        assert(!(m.is_io(a) && m.is_ram(a)));
    }
    assert forall|a: int| !(#[trigger] n.is_io(a) && n.is_rom(a)) by {
        assert(!(m.is_io(a) && m.is_rom(a)));
    }
    assert forall|a: int| !(#[trigger] n.is_ram(a) && n.is_rom(a)) by {
        assert(!(m.is_ram(a) && m.is_rom(a)));
    }
}

/// The memory map: a ROM, a RAM and a one-byte output device. `output`
/// collects the bytes written to the device, oldest first, for the host to
/// take and print.
#[derive(Debug)]
pub struct Memory {
    pub io_base: usize,
    pub io_len: usize,
    pub ram_base: usize,
    pub ram: Vec<u8>,
    pub rom_base: usize,
    pub rom: Vec<u8>,
    pub output: Vec<u8>,
}

impl View for Memory {
    type V = MemoryView;

    open spec fn view(&self) -> MemoryView {
        MemoryView {
            io_base: self.io_base as int,
            io_len: self.io_len as int,
            ram_base: self.ram_base as int,
            ram: self.ram@,
            rom_base: self.rom_base as int,
            rom: self.rom@,
            output: self.output@,
        }
    }
}

impl Memory {
    /// The regions are disjoint and lie within the address space.
    pub open spec fn wf(&self) -> bool {
        self@.wf()
    }

    /// The standard memory map with `rom` as the ROM and 4096 zero bytes of
    /// RAM. The ROM must end at or below the output device.
    pub fn default_rom(rom: Vec<u8>) -> (m: Self)
        requires
            rom.len() <= 0x4000_0000,
        ensures
            m@ == MemoryView::standard(rom@, Seq::new(4096, |i: int| 0u8)),
            m.wf(),
    {
        let m = Self {
            io_base: 0x6000_0000,
            io_len: 0x01,
            ram_base: 0x8000_0000,
            ram: vec![0u8; 4096],
            rom_base: 0x2000_0000,
            rom,
            output: Vec::new(),
        };
        assert(m.ram@ =~= Seq::new(4096, |i: int| 0u8));
        m
    }

    /// The standard memory map with `ram` as the RAM and 4096 zero bytes of
    /// ROM. The RAM must end within the 32-bit address space.
    pub fn default_ram(ram: Vec<u8>) -> (m: Self)
        requires
            ram.len() < 0x8000_0000,
        ensures
            m@ == MemoryView::standard(Seq::new(4096, |i: int| 0u8), ram@),
            m.wf(),
    {
        let m = Self {
            io_base: 0x6000_0000,
            io_len: 0x01,
            ram_base: 0x8000_0000,
            ram,
            rom_base: 0x2000_0000,
            rom: vec![0u8; 4096],
            output: Vec::new(),
        };
        assert(m.rom@ =~= Seq::new(4096, |i: int| 0u8));
        m
    }

    /// Whether `addr` lies in the output device.
    pub fn is_io(&self, addr: usize) -> (r: bool)
        ensures
            r == self@.is_io(addr as int),
    {
        self.io_base <= addr && addr - self.io_base < self.io_len
    }

    /// Whether `addr` lies in the RAM.
    pub fn is_ram(&self, addr: usize) -> (r: bool)
        ensures
            r == self@.is_ram(addr as int),
    {
        self.ram_base <= addr && addr - self.ram_base < self.ram.len()
    }

    /// Whether `addr` lies in the ROM.
    pub fn is_rom(&self, addr: usize) -> (r: bool)
        ensures
            r == self@.is_rom(addr as int),
    {
        self.rom_base <= addr && addr - self.rom_base < self.rom.len()
    }

    /// Reads the byte at `addr`, zero-extended.
    pub fn read_byte(&self, addr: usize) -> (r: Result<u32, MemoryError>)
        ensures
            r == self@.read_byte(addr as int),
    {
        if self.is_ram(addr) {
            let index = addr - self.ram_base;
            return Ok(self.ram[index] as u32);
        }
        if self.is_rom(addr) {
            let index = addr - self.rom_base;
            return Ok(self.rom[index] as u32);
        }
        if self.is_io(addr) {
            return Err(MemoryError::WriteOnly(addr));
        }
        Err(MemoryError::Unmapped(addr))
    }

    /// Reads the two bytes at `index`, little-endian.
    pub fn read_halfword(&self, index: usize) -> (r: Result<u32, MemoryError>)
        requires
            self.wf(),
        ensures
            r == self@.read_halfword(index as int),
    {
        let low: u32 = match self.read_byte(index) {
            Ok(byte) => byte,
            Err(e) => { return Err(e); },
        };
        let high: u32 = match self.read_byte(index + 1) {
            Ok(byte) => byte,
            Err(e) => { return Err(e); },
        };
        assert((high << 8) == 0x100 * high) by (bit_vector)
            requires
                high < 0x100,
        ;
        Ok((high << 8) + low)
    }

    /// Reads the four bytes at `index`, little-endian.
    pub fn read_word(&self, index: usize) -> (r: Result<u32, MemoryError>)
        requires
            self.wf(),
        ensures
            r == self@.read_word(index as int),
    {
        let low: u32 = match self.read_halfword(index) {
            Ok(half) => half,
            Err(e) => { return Err(e); },
        };
        let high: u32 = match self.read_halfword(index + 2) {
            Ok(half) => half,
            Err(e) => { return Err(e); },
        };
        assert((high << 16) == 0x1_0000 * high) by (bit_vector)
            requires
                high < 0x1_0000,
        ;
        Ok((high << 16) + low)
    }

    /// Writes the low byte of `value` at `addr`: into the RAM, or to the
    /// output device, whose bytes `output` collects.
    pub fn write_byte(&mut self, addr: usize, value: u32) -> (r: Result<(), MemoryError>)
        ensures
            r == old(self)@.write_byte_result(addr as int),
            final(self)@ == old(self)@.write_byte(addr as int, value),
            old(self).wf() ==> final(self).wf(),
    {
        proof {
            law_write_keeps_regions(self@, addr as int, value);
        }
        let byte: u8 = #[verifier::truncate] ((value & 0xFF) as u8);
        assert(byte == value % 0x100) by (bit_vector)
            requires
                byte == (value & 0xFF) as u8,
        ;
        if self.is_ram(addr) {
            let index = addr - self.ram_base;
            self.ram[index] = byte;
            return Ok(());
        }
        if self.is_io(addr) {
            self.output.push(byte);
            return Ok(());
        }
        if self.is_rom(addr) {
            return Err(MemoryError::ReadOnly(addr));
        }
        Err(MemoryError::Unmapped(addr))
    }

    /// Writes the low two bytes of `value` at `index`, little-endian, byte by
    /// byte up to the first that fails.
    pub fn write_halfword(&mut self, index: usize, value: u32) -> (r: Result<(), MemoryError>)
        requires
            old(self).wf(),
        ensures
            r == old(self)@.write_halfword_result(index as int),
            final(self)@ == old(self)@.write_halfword(index as int, value),
            final(self).wf(),
    {
        match self.write_byte(index, value) {
            Ok(_) => {},
            Err(e) => { return Err(e); },
        }
        let high: u32 = value >> 8;
        assert(high == value / 0x100) by (bit_vector)
            requires
                high == value >> 8,
        ;
        self.write_byte(index + 1, high)
    }

    /// Writes the four bytes of `value` at `index`, little-endian, byte by
    /// byte up to the first that fails.
    pub fn write_word(&mut self, index: usize, value: u32) -> (r: Result<(), MemoryError>)
        requires
            old(self).wf(),
        ensures
            r == old(self)@.write_word_result(index as int),
            final(self)@ == old(self)@.write_word(index as int, value),
            final(self).wf(),
    {
        match self.write_halfword(index, value) {
            Ok(_) => {},
            Err(e) => { return Err(e); },
        }
        let high: u32 = value >> 16;
        assert(high == value / 0x1_0000) by (bit_vector)
            requires
                high == value >> 16,
        ;
        self.write_halfword(index + 2, high)
    }
}

/// An access fails if one of its bytes lies in no region: a byte access at
/// such an address, a halfword access with such a byte among its two, a
/// word access with one among its four. A write whose first byte lies in
/// no region changes nothing.
pub proof fn law_unmapped_access(m: MemoryView, addr: int, k: int, value: u32)
    requires
        0 <= k < 4,
        !m.is_rom(addr + k),
        !m.is_ram(addr + k),
        !m.is_io(addr + k),
    ensures
        k == 0 ==> m.read_byte(addr) is Err && m.write_byte_result(addr) is Err,
        k < 2 ==> m.read_halfword(addr) is Err && m.write_halfword_result(addr) is Err,
        m.read_word(addr) is Err,
        m.write_word_result(addr) is Err,
        k == 0 ==> m.write_byte(addr, value) == m && m.write_halfword(addr, value) == m
            && m.write_word(addr, value) == m,
{
}

/// The output device cannot be read, and the ROM cannot be written: such
/// an access fails and changes nothing.
pub proof fn law_one_way_regions(m: MemoryView, addr: int, value: u32)
    requires
        m.wf(),
    ensures
        m.is_io(addr) ==> m.read_byte(addr) == Err::<u32, _>(MemoryError::WriteOnly(addr as usize)),
        m.is_rom(addr) ==> m.write_byte_result(addr) == Err::<(), _>(
            MemoryError::ReadOnly(addr as usize),
        ) && m.write_byte(addr, value) == m,
{
}

/// A byte written to the RAM is read back, reduced to eight bits, and no
/// byte at another address changes.
pub proof fn law_byte_round_trip(m: MemoryView, addr: int, value: u32, other: int)
    requires
        m.is_ram(addr),
    ensures
        m.write_byte_result(addr) is Ok,
        m.write_byte(addr, value).read_byte(addr) == Ok::<u32, MemoryError>(value % 0x100),
        other != addr ==> m.write_byte(addr, value).read_byte(other) == m.read_byte(other),
{
}

/// A write of a halfword is the write of its low byte at the address,
/// followed, if that succeeded, by the write of its high byte at the next
/// address.
pub proof fn law_halfword_as_bytes(m: MemoryView, addr: int, value: u32)
    ensures
        m.write_halfword_result(addr) == (match m.write_byte_result(addr) {
            Err(e) => Err(e),
            Ok(_) => m.write_byte(addr, value % 0x100).write_byte_result(addr + 1),
        }),
        m.write_halfword(addr, value) == (if m.write_byte_result(addr) is Err {
            m
        } else {
            m.write_byte(addr, value % 0x100).write_byte(addr + 1, (value / 0x100) % 0x100)
        }),
{
}

/// A word written to four bytes of RAM is read back from them.
pub proof fn law_word_round_trip(m: MemoryView, addr: int, value: u32)
    requires
        m.is_ram(addr),
        m.is_ram(addr + 3),
    ensures
        m.write_word_result(addr) is Ok,
        m.write_word(addr, value).read_word(addr) == Ok::<u32, MemoryError>(value),
{
}

/// In a RAM whose base and length are multiples of four, a word written at
/// an address of the RAM that is a multiple of four is read back.
pub proof fn law_aligned_word_round_trip(m: MemoryView, addr: int, value: u32)
    requires
        m.ram_base % 4 == 0,
        m.ram.len() % 4 == 0,
        addr % 4 == 0,
        m.is_ram(addr),
    ensures
        m.write_word_result(addr) is Ok,
        m.write_word(addr, value).read_word(addr) == Ok::<u32, MemoryError>(value),
{
    law_word_round_trip(m, addr, value);
}

} // verus!
