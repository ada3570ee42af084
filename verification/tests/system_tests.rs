use riscv_sim::system::{CsrError, Memory, MemoryError, RegisterFile, CSR};

const ROM_BASE: usize = 0x2000_0000;
const IO_BASE: usize = 0x6000_0000;
const RAM_BASE: usize = 0x8000_0000;

#[test]
fn csr_file_starts_at_zero() {
    let csr: CSR = CSR::default();
    let addresses: [u32; 20] = [
        0xf11, 0xf12, 0xf13, 0xf14, 0xf15, 0x300, 0x301, 0x302, 0x303, 0x304, 0x305, 0x306, 0x310,
        0x340, 0x341, 0x342, 0x343, 0x344, 0x34a, 0x34b,
    ];
    for address in addresses {
        assert_eq!(csr.read(address), Ok(0));
    }
}

#[test]
fn read_only_csr_write_fails_and_keeps_the_value() {
    let addresses: [u32; 5] = [0xf11, 0xf12, 0xf13, 0xf14, 0xf15];
    for address in addresses {
        let mut csr: CSR = CSR::default();
        csr.mhartid = 7;
        let before: CSR = csr;
        assert_eq!(csr.write(address, 0x1234), Err(CsrError::ReadOnly(address)));
        assert_eq!(csr, before);
    }
    let mut csr: CSR = CSR::default();
    csr.mhartid = 7;
    assert_eq!(csr.read(0xf14), Ok(7));
    assert_eq!(csr.write(0xf14, 9), Err(CsrError::ReadOnly(0xf14)));
    assert_eq!(csr.read(0xf14), Ok(7));
}

#[test]
fn read_returns_each_stored_register() {
    let mut csr: CSR = CSR::default();
    csr.mvendorid = 1;
    csr.marchid = 2;
    csr.mimpid = 3;
    csr.mhartid = 4;
    csr.mconfigptr = 5;
    csr.mscratch = 6;
    csr.mepc = 7;
    csr.mcause = 8;
    csr.mtvec = 12;
    assert_eq!(csr.read(0xf11), Ok(1));
    assert_eq!(csr.read(0xf12), Ok(2));
    assert_eq!(csr.read(0xf13), Ok(3));
    assert_eq!(csr.read(0xf14), Ok(4));
    assert_eq!(csr.read(0xf15), Ok(5));
    assert_eq!(csr.read(0x340), Ok(6));
    assert_eq!(csr.read(0x341), Ok(7));
    assert_eq!(csr.read(0x342), Ok(8));
    assert_eq!(csr.read(0x305), Ok(12));
}

#[test]
fn writable_csrs_store_what_is_written() {
    let mut csr: CSR = CSR::default();
    assert_eq!(csr.write(0x340, 0xdead_beef), Ok(()));
    assert_eq!(csr.write(0x341, 0x2000_0010), Ok(()));
    assert_eq!(csr.write(0x342, 11), Ok(()));
    assert_eq!(csr.read(0x340), Ok(0xdead_beef));
    assert_eq!(csr.read(0x341), Ok(0x2000_0010));
    assert_eq!(csr.read(0x342), Ok(11));
    assert_eq!(csr.mscratch, 0xdead_beef);
    assert_eq!(csr.mepc, 0x2000_0010);
    assert_eq!(csr.mcause, 11);
    assert_eq!(csr.read(0x343), Ok(0));
}

#[test]
fn ignored_csr_writes_leave_zero() {
    let addresses: [u32; 10] =
        [0x300, 0x302, 0x303, 0x304, 0x306, 0x310, 0x343, 0x344, 0x34a, 0x34b];
    for address in addresses {
        let mut csr: CSR = CSR::default();
        assert_eq!(csr.write(address, 0xffff_ffff), Ok(()));
        assert_eq!(csr.read(address), Ok(0));
        assert_eq!(csr, CSR::default());
    }
}

#[test]
fn misa_always_reads_zero() {
    let mut csr: CSR = CSR::default();
    assert_eq!(csr.write(0x301, 0x4000_1100), Ok(()));
    assert_eq!(csr.read(0x301), Ok(0));
    csr.misa = 5;
    assert_eq!(csr.read(0x301), Ok(0));
}

#[test]
fn mtvec_must_be_four_byte_aligned() {
    let mut csr: CSR = CSR::default();
    assert_eq!(csr.write(0x305, 0x2000_0100), Ok(()));
    assert_eq!(csr.read(0x305), Ok(0x2000_0100));
    assert_eq!(csr.write(0x305, 0x2000_0201), Err(CsrError::Unaligned(0x2000_0201)));
    assert_eq!(csr.write(0x305, 0x2000_0202), Err(CsrError::Unaligned(0x2000_0202)));
    assert_eq!(csr.write(0x305, 0x2000_0203), Err(CsrError::Unaligned(0x2000_0203)));
    assert_eq!(csr.read(0x305), Ok(0x2000_0100));
    assert_eq!(csr.write(0x305, 0), Ok(()));
    assert_eq!(csr.read(0x305), Ok(0));
}

#[test]
fn unrecognized_csr_addresses_fail() {
    let addresses: [u32; 8] = [0, 0x2ff, 0x307, 0x33f, 0x345, 0xf10, 0xf16, 0xffff_ff11];
    for address in addresses {
        let mut csr: CSR = CSR::default();
        assert_eq!(csr.read(address), Err(CsrError::Unrecognized(address)));
        assert_eq!(csr.write(address, 1), Err(CsrError::Unrecognized(address)));
        assert_eq!(csr, CSR::default());
    }
}

#[test]
fn register_zero_stays_zero() {
    let mut registers: RegisterFile = RegisterFile::default();
    registers.write(0, 0xdead_beef);
    assert_eq!(registers.read(0), 0);
    registers.write(5, 17);
    assert_eq!(registers.read(0), 0);
    registers.write(0, 1);
    registers.write(0, 2);
    assert_eq!(registers.read(0), 0);
    assert_eq!(registers.read(5), 17);
}

#[test]
fn register_zero_reads_zero_whatever_the_array_holds() {
    let mut registers: RegisterFile = RegisterFile::default();
    registers.regs[0] = 99;
    assert_eq!(registers.read(0), 0);
}

#[test]
fn registers_hold_what_is_written() {
    let mut registers: RegisterFile = RegisterFile::default();
    for index in 1..32usize {
        assert_eq!(registers.read(index), 0);
        registers.write(index, 0x100 + index as u32);
    }
    for index in 1..32usize {
        assert_eq!(registers.read(index), 0x100 + index as u32);
    }
    registers.write(31, 0xffff_ffff);
    assert_eq!(registers.read(31), 0xffff_ffff);
    assert_eq!(registers.read(30), 0x11e);
    assert_eq!(registers.pc, 0);
    assert_eq!(registers.csr, CSR::default());
}

#[test]
fn reset_state() {
    let memory: Memory = Memory::default_rom(vec![0x73, 0, 0, 0]);
    let registers: RegisterFile = RegisterFile::reset(&memory);
    assert_eq!(registers.pc, 0x2000_0000);
    assert_eq!(registers.read(2), 0x8000_1000);
    for index in 0..32usize {
        if index != 2 {
            assert_eq!(registers.read(index), 0);
        }
    }
    assert_eq!(registers.csr, CSR::default());
}

#[test]
fn default_rom_layout() {
    let memory: Memory = Memory::default_rom(vec![1, 2, 3]);
    assert_eq!(memory.rom_base, ROM_BASE);
    assert_eq!(memory.rom, vec![1, 2, 3]);
    assert_eq!(memory.ram_base, RAM_BASE);
    assert_eq!(memory.ram.len(), 4096);
    assert!(memory.ram.iter().all(|b| *b == 0));
    assert_eq!(memory.io_base, IO_BASE);
    assert_eq!(memory.io_len, 1);
    assert!(memory.output.is_empty());
}

#[test]
fn default_ram_layout() {
    let memory: Memory = Memory::default_ram(vec![9, 8, 7, 6, 5]);
    assert_eq!(memory.ram_base, RAM_BASE);
    assert_eq!(memory.ram, vec![9, 8, 7, 6, 5]);
    assert_eq!(memory.rom_base, ROM_BASE);
    assert_eq!(memory.rom.len(), 4096);
    assert!(memory.rom.iter().all(|b| *b == 0));
    assert_eq!(memory.read_byte(RAM_BASE + 4), Ok(5));
    assert_eq!(memory.read_byte(RAM_BASE + 5), Err(MemoryError::Unmapped(RAM_BASE + 5)));
}

#[test]
fn region_membership() {
    let memory: Memory = Memory::default_rom(vec![0; 16]);
    assert!(memory.is_rom(ROM_BASE));
    assert!(memory.is_rom(ROM_BASE + 15));
    assert!(!memory.is_rom(ROM_BASE + 16));
    assert!(!memory.is_rom(ROM_BASE - 1));
    assert!(memory.is_ram(RAM_BASE));
    assert!(memory.is_ram(RAM_BASE + 4095));
    assert!(!memory.is_ram(RAM_BASE + 4096));
    assert!(!memory.is_ram(RAM_BASE - 1));
    assert!(memory.is_io(IO_BASE));
    assert!(!memory.is_io(IO_BASE + 1));
    assert!(!memory.is_io(IO_BASE - 1));
    assert!(!memory.is_io(0));
    assert!(!memory.is_ram(usize::MAX));
}

#[test]
fn reads_are_little_endian() {
    let memory: Memory = Memory::default_rom(vec![0x78, 0x56, 0x34, 0x12, 0xef, 0xcd, 0xab, 0x89]);
    assert_eq!(memory.read_byte(ROM_BASE), Ok(0x78));
    assert_eq!(memory.read_byte(ROM_BASE + 3), Ok(0x12));
    assert_eq!(memory.read_halfword(ROM_BASE), Ok(0x5678));
    assert_eq!(memory.read_halfword(ROM_BASE + 2), Ok(0x1234));
    assert_eq!(memory.read_word(ROM_BASE), Ok(0x1234_5678));
    assert_eq!(memory.read_word(ROM_BASE + 4), Ok(0x89ab_cdef));
    // Misaligned accesses are composed byte by byte.
    assert_eq!(memory.read_halfword(ROM_BASE + 1), Ok(0x3456));
    assert_eq!(memory.read_word(ROM_BASE + 1), Ok(0xef12_3456));
    assert_eq!(memory.read_word(ROM_BASE + 3), Ok(0xabcd_ef12));
}

#[test]
fn access_outside_every_region_fails() {
    let addresses: [usize; 9] = [
        0,
        ROM_BASE - 1,
        ROM_BASE + 4,
        IO_BASE - 1,
        IO_BASE + 1,
        RAM_BASE - 1,
        RAM_BASE + 4096,
        0xffff_fffc,
        usize::MAX,
    ];
    for address in addresses {
        let mut memory: Memory = Memory::default_rom(vec![1, 2, 3, 4]);
        assert_eq!(memory.read_byte(address), Err(MemoryError::Unmapped(address)));
        assert_eq!(memory.read_halfword(address), Err(MemoryError::Unmapped(address)));
        assert_eq!(memory.read_word(address), Err(MemoryError::Unmapped(address)));
        assert_eq!(memory.write_byte(address, 1), Err(MemoryError::Unmapped(address)));
        assert_eq!(memory.write_halfword(address, 1), Err(MemoryError::Unmapped(address)));
        assert_eq!(memory.write_word(address, 1), Err(MemoryError::Unmapped(address)));
        assert_eq!(memory.rom, vec![1, 2, 3, 4]);
        assert!(memory.ram.iter().all(|b| *b == 0));
        assert!(memory.output.is_empty());
    }
}

#[test]
fn access_fails_at_the_first_unmapped_byte() {
    let mut memory: Memory = Memory::default_rom(vec![1, 2, 3, 4]);
    assert_eq!(memory.read_halfword(ROM_BASE + 3), Err(MemoryError::Unmapped(ROM_BASE + 4)));
    assert_eq!(memory.read_word(ROM_BASE + 1), Err(MemoryError::Unmapped(ROM_BASE + 4)));
    assert_eq!(memory.read_word(ROM_BASE + 2), Err(MemoryError::Unmapped(ROM_BASE + 4)));
    assert_eq!(memory.read_word(ROM_BASE - 1), Err(MemoryError::Unmapped(ROM_BASE - 1)));
    assert_eq!(
        memory.read_word(RAM_BASE + 4094),
        Err(MemoryError::Unmapped(RAM_BASE + 4096))
    );
    // The bytes before the one that fails are written.
    assert_eq!(
        memory.write_word(RAM_BASE + 4094, 0x4433_2211),
        Err(MemoryError::Unmapped(RAM_BASE + 4096))
    );
    assert_eq!(memory.read_byte(RAM_BASE + 4094), Ok(0x11));
    assert_eq!(memory.read_byte(RAM_BASE + 4095), Ok(0x22));
    assert_eq!(
        memory.write_halfword(RAM_BASE + 4095, 0xbbaa),
        Err(MemoryError::Unmapped(RAM_BASE + 4096))
    );
    assert_eq!(memory.read_byte(RAM_BASE + 4095), Ok(0xaa));
}

#[test]
fn the_output_device_cannot_be_read() {
    let memory: Memory = Memory::default_rom(vec![]);
    assert_eq!(memory.read_byte(IO_BASE), Err(MemoryError::WriteOnly(IO_BASE)));
    assert_eq!(memory.read_halfword(IO_BASE), Err(MemoryError::WriteOnly(IO_BASE)));
    assert_eq!(memory.read_word(IO_BASE), Err(MemoryError::WriteOnly(IO_BASE)));
}

#[test]
fn the_rom_cannot_be_written() {
    let mut memory: Memory = Memory::default_rom(vec![1, 2, 3, 4]);
    assert_eq!(memory.write_byte(ROM_BASE, 9), Err(MemoryError::ReadOnly(ROM_BASE)));
    assert_eq!(memory.write_halfword(ROM_BASE + 2, 9), Err(MemoryError::ReadOnly(ROM_BASE + 2)));
    assert_eq!(memory.write_word(ROM_BASE, 9), Err(MemoryError::ReadOnly(ROM_BASE)));
    assert_eq!(memory.rom, vec![1, 2, 3, 4]);
}

#[test]
fn byte_round_trip_in_ram() {
    let mut memory: Memory = Memory::default_rom(vec![]);
    let values: [u32; 5] = [0, 0x7f, 0xff, 0x1234_56ab, 0xffff_ff00];
    for (offset, value) in values.iter().enumerate() {
        let address: usize = RAM_BASE + 100 + offset;
        assert_eq!(memory.write_byte(address, *value), Ok(()));
        assert_eq!(memory.read_byte(address), Ok(*value & 0xff));
    }
    assert_eq!(memory.read_byte(RAM_BASE + 99), Ok(0));
    assert_eq!(memory.read_byte(RAM_BASE + 103), Ok(0xab));
    assert_eq!(memory.read_byte(RAM_BASE + 105), Ok(0));
    assert_eq!(memory.write_byte(RAM_BASE + 4095, 0x5a), Ok(()));
    assert_eq!(memory.read_byte(RAM_BASE + 4095), Ok(0x5a));
}

#[test]
fn word_round_trip_in_ram() {
    let mut memory: Memory = Memory::default_rom(vec![]);
    let values: [u32; 5] = [0, 1, 0x1234_5678, 0x8000_0000, 0xffff_ffff];
    for (index, value) in values.iter().enumerate() {
        let address: usize = RAM_BASE + 4 * index;
        assert_eq!(memory.write_word(address, *value), Ok(()));
        assert_eq!(memory.read_word(address), Ok(*value));
    }
    assert_eq!(memory.read_word(RAM_BASE + 8), Ok(0x1234_5678));
    assert_eq!(memory.write_word(RAM_BASE + 4092, 0xcafe_f00d), Ok(()));
    assert_eq!(memory.read_word(RAM_BASE + 4092), Ok(0xcafe_f00d));
    // A misaligned word is read back too.
    assert_eq!(memory.write_word(RAM_BASE + 33, 0x0403_0201), Ok(()));
    assert_eq!(memory.read_word(RAM_BASE + 33), Ok(0x0403_0201));
    assert_eq!(memory.read_byte(RAM_BASE + 33), Ok(1));
    assert_eq!(memory.read_byte(RAM_BASE + 36), Ok(4));
}

#[test]
fn halfword_write_is_two_byte_writes() {
    let values: [u32; 4] = [0xbbaa, 0x1234_5678, 0xffff_ffff, 0x0001_0000];
    for value in values {
        let mut whole: Memory = Memory::default_rom(vec![]);
        let mut parts: Memory = Memory::default_rom(vec![]);
        assert_eq!(whole.write_halfword(RAM_BASE + 10, value), Ok(()));
        assert_eq!(parts.write_byte(RAM_BASE + 10, value & 0xff), Ok(()));
        assert_eq!(parts.write_byte(RAM_BASE + 11, (value >> 8) & 0xff), Ok(()));
        assert_eq!(whole.ram, parts.ram);
        assert_eq!(whole.read_halfword(RAM_BASE + 10), Ok(value & 0xffff));
        assert_eq!(whole.read_byte(RAM_BASE + 12), Ok(0));
    }
    let mut memory: Memory = Memory::default_rom(vec![]);
    assert_eq!(memory.write_halfword(RAM_BASE, 0xbbaa), Ok(()));
    assert_eq!(memory.read_byte(RAM_BASE), Ok(0xaa));
    assert_eq!(memory.read_byte(RAM_BASE + 1), Ok(0xbb));
}

#[test]
fn word_write_is_little_endian() {
    let mut memory: Memory = Memory::default_rom(vec![]);
    assert_eq!(memory.write_word(RAM_BASE, 0x4433_2211), Ok(()));
    assert_eq!(&memory.ram[0..5], &[0x11, 0x22, 0x33, 0x44, 0]);
    assert_eq!(memory.read_halfword(RAM_BASE + 1), Ok(0x3322));
}

#[test]
fn writes_to_the_device_are_collected() {
    let mut memory: Memory = Memory::default_rom(vec![]);
    assert_eq!(memory.write_byte(IO_BASE, 0x41), Ok(()));
    assert_eq!(memory.write_byte(IO_BASE, 0x1234_5642), Ok(()));
    assert_eq!(memory.output, vec![0x41, 0x42]);
    assert!(memory.ram.iter().all(|b| *b == 0));
    // A halfword at the device writes its low byte, then fails past it.
    assert_eq!(
        memory.write_halfword(IO_BASE, 0x4443),
        Err(MemoryError::Unmapped(IO_BASE + 1))
    );
    assert_eq!(memory.output, vec![0x41, 0x42, 0x43]);
}
