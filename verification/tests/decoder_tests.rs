use riscv_sim::decoder::{
    decode, funct3, funct7, get_opcode, immediate_b, immediate_i, immediate_j, immediate_s,
    immediate_u, rd, rs1, rs2, DecodeError, Instruction, OpCode,
};

#[test]
fn register_fields_are_five_bit_slices() {
    // add x3, x1, x2
    let word: u32 = 0x0020_81b3;
    assert_eq!(rd(word), 3);
    assert_eq!(rs1(word), 1);
    assert_eq!(rs2(word), 2);
    assert_eq!(rd(0xffff_ffff), 31);
    assert_eq!(rs1(0xffff_ffff), 31);
    assert_eq!(rs2(0xffff_ffff), 31);
    assert_eq!(rd(0x0000_0f80), 31);
    assert_eq!(rs1(0x000f_8000), 31);
    assert_eq!(rs2(0x01f0_0000), 31);
    assert_eq!(rd(!0x0000_0f80u32), 0);
    assert_eq!(rs1(!0x000f_8000u32), 0);
    assert_eq!(rs2(!0x01f0_0000u32), 0);
}

#[test]
fn function_fields_are_slices() {
    // sra x3, x1, x2
    let word: u32 = 0x4020_d1b3;
    assert_eq!(funct3(word), 5);
    assert_eq!(funct7(word), 0x20);
    assert_eq!(funct3(0xffff_ffff), 7);
    assert_eq!(funct7(0xffff_ffff), 0x7f);
    assert_eq!(funct3(!0x0000_7000u32), 0);
    assert_eq!(funct7(!0xfe00_0000u32), 0);
}

#[test]
fn i_immediate_is_sign_extended() {
    assert_eq!(immediate_i(0x02a0_0093), 42);
    assert_eq!(immediate_i(0xfff0_0093), 0xffff_ffff);
    assert_eq!(immediate_i(0x7ff0_0000), 0x7ff);
    assert_eq!(immediate_i(0x8000_0000), 0xffff_f800);
    assert_eq!(immediate_i(0x000f_ffff), 0);
}

#[test]
fn s_immediate_is_sign_extended() {
    // sw x2, -8(x1)
    assert_eq!(immediate_s(0xfe20_ac23), 0xffff_fff8);
    // sh x2, 2(x1)
    assert_eq!(immediate_s(0x0020_9123), 2);
    assert_eq!(immediate_s(0x7e00_0f80), 0x7ff);
    assert_eq!(immediate_s(0x8000_0000), 0xffff_f800);
    assert_eq!(immediate_s(0x01ff_f07f), 0);
}

#[test]
fn b_immediate_is_sign_extended_and_even() {
    // blt x1, x2, +8
    assert_eq!(immediate_b(0x0020_c463), 8);
    // beq x0, x0, -4
    assert_eq!(immediate_b(0xfe00_0ee3), 0xffff_fffc);
    // bge x1, x2, 4094
    assert_eq!(immediate_b(0x7e20_dfe3), 4094);
    // bltu x1, x2, -4096
    assert_eq!(immediate_b(0x8020_e063), 0xffff_f000);
    // bit 7 of the word is bit 11 of the immediate
    assert_eq!(immediate_b(0x0000_0080), 0x800);
    assert_eq!(immediate_b(0xffff_ffff) & 1, 0);
}

#[test]
fn u_immediate_keeps_the_upper_twenty_bits() {
    assert_eq!(immediate_u(0x6000_00b7), 0x6000_0000);
    assert_eq!(immediate_u(0x1234_5297), 0x1234_5000);
    assert_eq!(immediate_u(0xffff_ffff), 0xffff_f000);
    assert_eq!(immediate_u(0x0000_0fff), 0);
}

#[test]
fn j_immediate_is_sign_extended_and_even() {
    // jal x1, +8
    assert_eq!(immediate_j(0x0080_00ef), 8);
    // jal x1, -4
    assert_eq!(immediate_j(0xffdf_f0ef), 0xffff_fffc);
    assert_eq!(immediate_j(0x7fff_f0ef), 0x000f_fffe);
    assert_eq!(immediate_j(0x8000_00ef), 0xfff0_0000);
    // bit 20 of the word is bit 11 of the immediate
    assert_eq!(immediate_j(0x0010_0000), 0x800);
    // bits 19..12 stay in place
    assert_eq!(immediate_j(0x000f_f000), 0x000f_f000);
    assert_eq!(immediate_j(0xffff_ffff) & 1, 0);
}

#[test]
fn opcode_class_follows_bits_six_to_two() {
    assert_eq!(get_opcode(0x0000_0003), OpCode::LOAD);
    assert_eq!(get_opcode(0x0000_0007), OpCode::LOADFP);
    assert_eq!(get_opcode(0x0000_000b), OpCode::CUSTOM0);
    assert_eq!(get_opcode(0x0000_000f), OpCode::MISCMEM);
    assert_eq!(get_opcode(0x0000_0013), OpCode::OPIMM);
    assert_eq!(get_opcode(0x0000_0017), OpCode::AUIPC);
    assert_eq!(get_opcode(0x0000_001b), OpCode::OPIMM32);
    assert_eq!(get_opcode(0x0000_001f), OpCode::LEN48);
    assert_eq!(get_opcode(0x0000_0023), OpCode::STORE);
    assert_eq!(get_opcode(0x0000_0027), OpCode::STOREFP);
    assert_eq!(get_opcode(0x0000_002b), OpCode::CUSTOM1);
    assert_eq!(get_opcode(0x0000_002f), OpCode::AMO);
    assert_eq!(get_opcode(0x0000_0033), OpCode::OP);
    assert_eq!(get_opcode(0x0000_0037), OpCode::LUI);
    assert_eq!(get_opcode(0x0000_003b), OpCode::OP32);
    assert_eq!(get_opcode(0x0000_003f), OpCode::LEN64);
    assert_eq!(get_opcode(0x0000_0043), OpCode::MADD);
    assert_eq!(get_opcode(0x0000_0047), OpCode::MSUB);
    assert_eq!(get_opcode(0x0000_004b), OpCode::NMSUB);
    assert_eq!(get_opcode(0x0000_004f), OpCode::NMADD);
    assert_eq!(get_opcode(0x0000_0053), OpCode::OPFP);
    assert_eq!(get_opcode(0x0000_0057), OpCode::RESERVED1);
    assert_eq!(get_opcode(0x0000_005b), OpCode::CUSTOM2);
    assert_eq!(get_opcode(0x0000_005f), OpCode::LEN482);
    assert_eq!(get_opcode(0x0000_0063), OpCode::BRANCH);
    assert_eq!(get_opcode(0x0000_0067), OpCode::JALR);
    assert_eq!(get_opcode(0x0000_006b), OpCode::RESERVED2);
    assert_eq!(get_opcode(0x0000_006f), OpCode::JAL);
    assert_eq!(get_opcode(0x0000_0073), OpCode::SYSTEM);
    assert_eq!(get_opcode(0x0000_0077), OpCode::RESERVED3);
    assert_eq!(get_opcode(0x0000_007b), OpCode::CUSTOM3);
    assert_eq!(get_opcode(0x0000_007f), OpCode::LEN80);
    assert_eq!(get_opcode(0xffff_ff83), OpCode::LOAD);
}

#[test]
fn decodes_upper_immediate_and_jumps() {
    assert_eq!(decode(0x6000_00b7), Ok(Instruction::LUI(1, 0x6000_0000)));
    assert_eq!(decode(0x1234_5297), Ok(Instruction::AUIPC(5, 0x1234_5000)));
    assert_eq!(decode(0x0080_00ef), Ok(Instruction::JAL(1, 8)));
    assert_eq!(decode(0x0000_006f), Ok(Instruction::JAL(0, 0)));
    assert_eq!(decode(0x0000_8067), Ok(Instruction::JALR(0, 1, 0)));
}

#[test]
fn decodes_branches() {
    assert_eq!(decode(0xfe00_0ee3), Ok(Instruction::BEQ(0, 0, 0xffff_fffc)));
    assert_eq!(decode(0xfe20_9ce3), Ok(Instruction::BNE(1, 2, 0xffff_fff8)));
    assert_eq!(decode(0x0020_c463), Ok(Instruction::BLT(1, 2, 8)));
    assert_eq!(decode(0x7e20_dfe3), Ok(Instruction::BGE(1, 2, 4094)));
    assert_eq!(decode(0x8020_e063), Ok(Instruction::BLTU(1, 2, 0xffff_f000)));
    assert_eq!(decode(0x0020_f863), Ok(Instruction::BGEU(1, 2, 16)));
}

#[test]
fn decodes_loads_and_stores() {
    assert_eq!(decode(0x0001_0203), Ok(Instruction::LB(4, 2, 0)));
    assert_eq!(decode(0xffe1_1203), Ok(Instruction::LH(4, 2, 0xffff_fffe)));
    assert_eq!(decode(0x0001_2203), Ok(Instruction::LW(4, 2, 0)));
    assert_eq!(decode(0x0011_4203), Ok(Instruction::LBU(4, 2, 1)));
    assert_eq!(decode(0x0001_5203), Ok(Instruction::LHU(4, 2, 0)));
    assert_eq!(decode(0x7fff_af83), Ok(Instruction::LW(31, 31, 2047)));
    assert_eq!(decode(0x0020_8023), Ok(Instruction::SB(1, 2, 0)));
    assert_eq!(decode(0x0020_9123), Ok(Instruction::SH(1, 2, 2)));
    assert_eq!(decode(0xfe20_ac23), Ok(Instruction::SW(1, 2, 0xffff_fff8)));
}

#[test]
fn decodes_immediate_operations() {
    assert_eq!(decode(0x02a0_0093), Ok(Instruction::ADDI(1, 0, 42)));
    assert_eq!(decode(0xfff0_0093), Ok(Instruction::ADDI(1, 0, 0xffff_ffff)));
    assert_eq!(decode(0xffb0_a193), Ok(Instruction::SLTI(3, 1, 0xffff_fffb)));
    assert_eq!(decode(0xffb0_b193), Ok(Instruction::SLTIU(3, 1, 0xffff_fffb)));
    assert_eq!(decode(0xfff0_c193), Ok(Instruction::XORI(3, 1, 0xffff_ffff)));
    assert_eq!(decode(0x0550_e193), Ok(Instruction::ORI(3, 1, 0x55)));
    assert_eq!(decode(0x00f0_f193), Ok(Instruction::ANDI(3, 1, 0x0f)));
    assert_eq!(decode(0x0030_9193), Ok(Instruction::SLLI(3, 1, 3)));
}

#[test]
fn right_shift_kind_follows_bit_thirty() {
    assert_eq!(decode(0x0010_d193), Ok(Instruction::SRLI(3, 1, 1)));
    assert_eq!(decode(0x4010_d193), Ok(Instruction::SRAI(3, 1, 0x401)));
    // A logical shift by zero places and an arithmetic one.
    assert_eq!(decode(0x0000_d193), Ok(Instruction::SRLI(3, 1, 0)));
    assert_eq!(decode(0x4000_d193), Ok(Instruction::SRAI(3, 1, 0x400)));
    // Bit 30 decides, whatever the other bits of the immediate hold.
    assert_eq!(decode(0x01f0_d193), Ok(Instruction::SRLI(3, 1, 0x1f)));
}

#[test]
fn decodes_register_operations() {
    assert_eq!(decode(0x0020_81b3), Ok(Instruction::ADD(3, 1, 2)));
    assert_eq!(decode(0x4020_81b3), Ok(Instruction::SUB(3, 1, 2)));
    assert_eq!(decode(0x0020_91b3), Ok(Instruction::SLL(3, 1, 2)));
    assert_eq!(decode(0x0020_a1b3), Ok(Instruction::SLT(3, 1, 2)));
    assert_eq!(decode(0x0020_b1b3), Ok(Instruction::SLTU(3, 1, 2)));
    assert_eq!(decode(0x0020_c1b3), Ok(Instruction::XOR(3, 1, 2)));
    assert_eq!(decode(0x0020_d1b3), Ok(Instruction::SRL(3, 1, 2)));
    assert_eq!(decode(0x4020_d1b3), Ok(Instruction::SRA(3, 1, 2)));
    assert_eq!(decode(0x0020_e1b3), Ok(Instruction::OR(3, 1, 2)));
    assert_eq!(decode(0x0020_f1b3), Ok(Instruction::AND(3, 1, 2)));
}

#[test]
fn decodes_multiply_divide_operations() {
    assert_eq!(decode(0x0220_81b3), Ok(Instruction::MUL(3, 1, 2)));
    assert_eq!(decode(0x0220_91b3), Ok(Instruction::MULH(3, 1, 2)));
    assert_eq!(decode(0x0220_a1b3), Ok(Instruction::MULHSU(3, 1, 2)));
    assert_eq!(decode(0x0220_b1b3), Ok(Instruction::MULHU(3, 1, 2)));
    assert_eq!(decode(0x0220_c1b3), Ok(Instruction::DIV(3, 1, 2)));
    assert_eq!(decode(0x0220_d1b3), Ok(Instruction::DIVU(3, 1, 2)));
    assert_eq!(decode(0x0220_e1b3), Ok(Instruction::REM(3, 1, 2)));
    assert_eq!(decode(0x0220_f1b3), Ok(Instruction::REMU(3, 1, 2)));
}

#[test]
fn decodes_system_instructions() {
    assert_eq!(decode(0x0000_0073), Ok(Instruction::ECALL()));
    assert_eq!(decode(0x0010_0073), Ok(Instruction::EBREAK()));
    assert_eq!(decode(0x3020_0073), Ok(Instruction::MRET()));
    assert_eq!(decode(0x0ff0_000f), Ok(Instruction::FENCE(0, 0, 0x0ff)));
}

#[test]
fn decodes_csr_instructions() {
    assert_eq!(decode(0x3400_9173), Ok(Instruction::CSRRW(2, 1, 0x340)));
    assert_eq!(decode(0x3400_11f3), Ok(Instruction::CSRRW(3, 0, 0x340)));
    // The address 0xf11 has its top bit set, so the immediate is negative.
    assert_eq!(decode(0xf110_20f3), Ok(Instruction::CSRRS(1, 0, 0xffff_ff11)));
    assert_eq!(decode(0x3401_30f3), Ok(Instruction::CSRRC(1, 2, 0x340)));
    assert_eq!(decode(0x3408_d0f3), Ok(Instruction::CSRRWI(1, 17, 0x340)));
    assert_eq!(decode(0x3401_e0f3), Ok(Instruction::CSRRSI(1, 3, 0x340)));
    assert_eq!(decode(0x3400_f0f3), Ok(Instruction::CSRRCI(1, 1, 0x340)));
}

#[test]
fn rejects_words_outside_the_base_encoding() {
    assert_eq!(decode(0x0000_0000), Err(DecodeError::NotBaseEncoding));
    assert_eq!(decode(0x02a0_0091), Err(DecodeError::NotBaseEncoding));
    assert_eq!(decode(0x02a0_0092), Err(DecodeError::NotBaseEncoding));
    assert_eq!(decode(0xffff_fffc), Err(DecodeError::NotBaseEncoding));
}

#[test]
fn rejects_unimplemented_opcode_classes() {
    let classes: [u32; 21] = [
        0x07, 0x0b, 0x1b, 0x1f, 0x27, 0x2b, 0x2f, 0x3b, 0x3f, 0x43, 0x47, 0x4b, 0x4f, 0x53, 0x57,
        0x5b, 0x5f, 0x6b, 0x77, 0x7b, 0x7f,
    ];
    for class in classes {
        assert_eq!(decode(class), Err(DecodeError::UnimplementedOpcode));
        assert_eq!(decode(0xffff_ff80 | class), Err(DecodeError::UnimplementedOpcode));
    }
}

#[test]
fn rejects_unassigned_funct3() {
    assert_eq!(decode(0x0001_3083), Err(DecodeError::InvalidFunct3));
    assert_eq!(decode(0x0001_6083), Err(DecodeError::InvalidFunct3));
    assert_eq!(decode(0x0001_7083), Err(DecodeError::InvalidFunct3));
    assert_eq!(decode(0x0020_b023), Err(DecodeError::InvalidFunct3));
    assert_eq!(decode(0x0020_f023), Err(DecodeError::InvalidFunct3));
    assert_eq!(decode(0x0020_a463), Err(DecodeError::InvalidFunct3));
    assert_eq!(decode(0x0020_b463), Err(DecodeError::InvalidFunct3));
    assert_eq!(decode(0x3400_c0f3), Err(DecodeError::InvalidFunct3));
}

#[test]
fn rejects_unassigned_funct7() {
    // funct3 = 0 with funct7 = 2: neither ADD nor SUB nor a multiplication.
    assert_eq!(decode(0x0420_81b3), Err(DecodeError::InvalidFunct7));
    // funct3 = 5 with funct7 = 0x40.
    assert_eq!(decode(0x8020_d1b3), Err(DecodeError::InvalidFunct7));
    // An odd funct7 always names a multiply/divide instruction.
    assert_eq!(decode(0x4220_81b3), Ok(Instruction::MUL(3, 1, 2)));
    // Where one instruction has the funct3 to itself, funct7 is not looked at.
    assert_eq!(decode(0x4020_91b3), Ok(Instruction::SLL(3, 1, 2)));
}

#[test]
fn rejects_unknown_system_immediates() {
    assert_eq!(decode(0x0020_0073), Err(DecodeError::InvalidSystemImmediate));
    assert_eq!(decode(0x3030_0073), Err(DecodeError::InvalidSystemImmediate));
    assert_eq!(decode(0xfff0_0073), Err(DecodeError::InvalidSystemImmediate));
}

#[test]
fn every_decoded_register_index_is_below_thirty_two() {
    let words: [u32; 8] = [
        0xffff_ffb3, 0xffff_af83, 0xffff_ff93, 0xffff_ffef, 0xffff_ffb7, 0xffff_8fe3, 0xffff_afa3,
        0xffff_9ff3,
    ];
    for word in words {
        match decode(word) {
            Ok(Instruction::REMU(a, b, c)) => assert_eq!((a, b, c), (31, 31, 31)),
            Ok(Instruction::LW(a, b, _)) => assert_eq!((a, b), (31, 31)),
            Ok(Instruction::ANDI(a, b, _)) => assert_eq!((a, b), (31, 31)),
            Ok(Instruction::JAL(a, _)) => assert_eq!(a, 31),
            Ok(Instruction::LUI(a, _)) => assert_eq!(a, 31),
            Ok(Instruction::BEQ(a, b, _)) => assert_eq!((a, b), (31, 31)),
            Ok(Instruction::SW(a, b, _)) => assert_eq!((a, b), (31, 31)),
            Ok(Instruction::CSRRW(a, b, _)) => assert_eq!((a, b), (31, 31)),
            other => panic!("unexpected {:?} for {:#x}", other, word),
        }
    }
}

#[test]
fn extension_membership() {
    assert!(Instruction::MUL(1, 2, 3).is_m());
    assert!(Instruction::MULH(1, 2, 3).is_m());
    assert!(Instruction::MULHSU(1, 2, 3).is_m());
    assert!(Instruction::MULHU(1, 2, 3).is_m());
    assert!(Instruction::DIV(1, 2, 3).is_m());
    assert!(Instruction::DIVU(1, 2, 3).is_m());
    assert!(Instruction::REM(1, 2, 3).is_m());
    assert!(Instruction::REMU(1, 2, 3).is_m());
    assert!(!Instruction::ADD(1, 2, 3).is_m());
    assert!(!Instruction::ECALL().is_m());
    assert!(!Instruction::CSRRW(1, 2, 0x340).is_m());
    assert!(Instruction::CSRRW(1, 2, 0x340).is_zicsr());
    assert!(Instruction::CSRRS(1, 2, 0x340).is_zicsr());
    assert!(Instruction::CSRRC(1, 2, 0x340).is_zicsr());
    assert!(Instruction::CSRRWI(1, 2, 0x340).is_zicsr());
    assert!(Instruction::CSRRSI(1, 2, 0x340).is_zicsr());
    assert!(Instruction::CSRRCI(1, 2, 0x340).is_zicsr());
    assert!(!Instruction::MRET().is_zicsr());
    assert!(!Instruction::ADDI(1, 2, 0).is_zicsr());
    assert!(!Instruction::MUL(1, 2, 3).is_zicsr());
}
