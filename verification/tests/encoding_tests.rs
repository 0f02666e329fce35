use co_tester::catalog::Instr;
use co_tester::encoding::{gen_machine_code_i, gen_machine_code_j, gen_machine_code_r};
use co_tester::gen::InstructionType;
use co_tester::instr::arith::{
    AddInstr, AddiInstr, AddiuInstr, AdduInstr, LuiInstr, NopInstr, SltInstr, SltiInstr,
    SltiuInstr, SltuInstr, SubInstr, SubuInstr,
};
use co_tester::instr::branch::{
    BeqInstr, BgezInstr, BgtzInstr, BlezInstr, BltzInstr, BneInstr, JInstr, JalInstr, JalrInstr,
    JrInstr,
};
use co_tester::instr::logic::{AndInstr, AndiInstr, NorInstr, OrInstr, OriInstr, XorInstr, XoriInstr};
use co_tester::instr::memory::{
    LbInstr, LbuInstr, LhInstr, LhuInstr, LwInstr, SbInstr, ShInstr, SwInstr,
};
use co_tester::instr::muldiv::{
    DivInstr, DivuInstr, MfhiInstr, MfloInstr, MthiInstr, MtloInstr, MultInstr, MultuInstr,
};
use co_tester::instr::shift::{SllInstr, SllvInstr, SraInstr, SravInstr, SrlInstr, SrlvInstr};
use co_tester::machine::Instruction;

/// One instruction of every type, with operands that differ from field to
/// field, its word and its text.
fn samples() -> Vec<(Instr, InstructionType, u32, &'static str)> {
    vec![
        (Instr::Nop(NopInstr), InstructionType::Nop, 0x0000_0000, "nop"),
        (Instr::Add(AddInstr { rs: 2, rt: 3, rd: 1 }), InstructionType::Add, 0x0043_0820, "add $1, $2, $3"),
        (Instr::Addi(AddiInstr { rs: 2, rt: 1, imm: -1 }), InstructionType::Addi, 0x2041_ffff, "addi $1, $2, -1"),
        (Instr::Addu(AdduInstr { rs: 0, rt: 0, rd: 1 }), InstructionType::Addu, 0x0000_0821, "addu $1, $0, $0"),
        (Instr::Addiu(AddiuInstr { rs: 29, rt: 29, imm: -32768 }), InstructionType::Addiu, 0x27bd_8000, "addiu $29, $29, -32768"),
        (Instr::Sub(SubInstr { rs: 31, rt: 30, rd: 29 }), InstructionType::Sub, 0x03fe_e822, "sub $29, $31, $30"),
        (Instr::Subu(SubuInstr { rs: 4, rt: 5, rd: 6 }), InstructionType::Subu, 0x0085_3023, "subu $6, $4, $5"),
        (Instr::Sll(SllInstr { rt: 2, rd: 1, sa: 3 }), InstructionType::Sll, 0x0002_08c0, "sll $1, $2, 3"),
        (Instr::Sllv(SllvInstr { rs: 3, rt: 2, rd: 1 }), InstructionType::Sllv, 0x0062_0804, "sllv $1, $2, $3"),
        (Instr::Srl(SrlInstr { rt: 2, rd: 1, sa: 31 }), InstructionType::Srl, 0x0002_0fc2, "srl $1, $2, 31"),
        (Instr::Srlv(SrlvInstr { rs: 3, rt: 2, rd: 1 }), InstructionType::Srlv, 0x0062_0806, "srlv $1, $2, $3"),
        (Instr::Sra(SraInstr { rt: 2, rd: 1, sa: 16 }), InstructionType::Sra, 0x0002_0c03, "sra $1, $2, 16"),
        (Instr::Srav(SravInstr { rs: 3, rt: 2, rd: 1 }), InstructionType::Srav, 0x0062_0807, "srav $1, $2, $3"),
        (Instr::And(AndInstr { rs: 2, rt: 3, rd: 1 }), InstructionType::And, 0x0043_0824, "and $1, $2, $3"),
        (Instr::Andi(AndiInstr { rs: 2, rt: 1, imm: 65535 }), InstructionType::Andi, 0x3041_ffff, "andi $1, $2, 65535"),
        (Instr::Or(OrInstr { rs: 2, rt: 3, rd: 1 }), InstructionType::Or, 0x0043_0825, "or $1, $2, $3"),
        (Instr::Ori(OriInstr { rs: 1, rt: 1, imm: 5 }), InstructionType::Ori, 0x3421_0005, "ori $1, $1, 5"),
        (Instr::Xor(XorInstr { rs: 2, rt: 3, rd: 1 }), InstructionType::Xor, 0x0043_0826, "xor $1, $2, $3"),
        (Instr::Xori(XoriInstr { rs: 2, rt: 1, imm: 256 }), InstructionType::Xori, 0x3841_0100, "xori $1, $2, 256"),
        (Instr::Nor(NorInstr { rs: 2, rt: 3, rd: 1 }), InstructionType::Nor, 0x0043_0827, "nor $1, $2, $3"),
        (Instr::Lui(LuiInstr { rt: 7, imm: 0x1234 }), InstructionType::Lui, 0x3c07_1234, "lui $7, 4660"),
        (Instr::Lb(LbInstr { base: 5, rt: 4, offset: 3 }), InstructionType::Lb, 0x80a4_0003, "lb $4, 3($5)"),
        (Instr::Lbu(LbuInstr { base: 5, rt: 4, offset: -3 }), InstructionType::Lbu, 0x90a4_fffd, "lbu $4, -3($5)"),
        (Instr::Lh(LhInstr { base: 5, rt: 4, offset: 2 }), InstructionType::Lh, 0x84a4_0002, "lh $4, 2($5)"),
        (Instr::Lhu(LhuInstr { base: 5, rt: 4, offset: 32766 }), InstructionType::Lhu, 0x94a4_7ffe, "lhu $4, 32766($5)"),
        (Instr::Lw(LwInstr { base: 5, rt: 4, offset: -12 }), InstructionType::Lw, 0x8ca4_fff4, "lw $4, -12($5)"),
        (Instr::Sb(SbInstr { base: 5, rt: 4, offset: 1 }), InstructionType::Sb, 0xa0a4_0001, "sb $4, 1($5)"),
        (Instr::Sh(ShInstr { base: 5, rt: 4, offset: -2 }), InstructionType::Sh, 0xa4a4_fffe, "sh $4, -2($5)"),
        (Instr::Sw(SwInstr { base: 0, rt: 1, offset: 0 }), InstructionType::Sw, 0xac01_0000, "sw $1, 0($0)"),
        (Instr::Slt(SltInstr { rs: 2, rt: 3, rd: 1 }), InstructionType::Slt, 0x0043_082a, "slt $1, $2, $3"),
        (Instr::Slti(SltiInstr { rs: 2, rt: 1, imm: -7 }), InstructionType::Slti, 0x2841_fff9, "slti $1, $2, -7"),
        (Instr::Sltu(SltuInstr { rs: 2, rt: 3, rd: 1 }), InstructionType::Sltu, 0x0043_082b, "sltu $1, $2, $3"),
        (Instr::Sltiu(SltiuInstr { rs: 2, rt: 1, imm: 7 }), InstructionType::Sltiu, 0x2c41_0007, "sltiu $1, $2, 7"),
        (Instr::Beq(BeqInstr { rs: 1, rt: 2, offset: 7 }), InstructionType::Beq, 0x1022_0007, "beq $1, $2, 7"),
        (Instr::Bne(BneInstr { rs: 1, rt: 2, offset: 1 }), InstructionType::Bne, 0x1422_0001, "bne $1, $2, 1"),
        (Instr::Blez(BlezInstr { rs: 3, offset: 5 }), InstructionType::Blez, 0x1860_0005, "blez $3, 5"),
        (Instr::Bltz(BltzInstr { rs: 3, offset: -2 }), InstructionType::Bltz, 0x0460_fffe, "bltz $3, -2"),
        (Instr::Bgez(BgezInstr { rs: 3, offset: 5 }), InstructionType::Bgez, 0x0461_0005, "bgez $3, 5"),
        (Instr::Bgtz(BgtzInstr { rs: 3, offset: 5 }), InstructionType::Bgtz, 0x1c60_0005, "bgtz $3, 5"),
        (Instr::J(JInstr { addr: 3072 }), InstructionType::J, 0x0800_0c00, "j 3072"),
        (Instr::Jal(JalInstr { addr: 16384 }), InstructionType::Jal, 0x0c00_4000, "jal 16384"),
        (Instr::Jr(JrInstr { rs: 31 }), InstructionType::Jr, 0x03e0_0008, "jr $31"),
        (Instr::Jalr(JalrInstr { rs: 1, rd: 31 }), InstructionType::Jalr, 0x0020_f809, "jalr $31, $1"),
        (Instr::Mult(MultInstr { rs: 4, rt: 5 }), InstructionType::Mult, 0x0085_0018, "mult $4, $5"),
        (Instr::Multu(MultuInstr { rs: 4, rt: 5 }), InstructionType::Multu, 0x0085_0019, "multu $4, $5"),
        (Instr::Div(DivInstr { rs: 4, rt: 5 }), InstructionType::Div, 0x0085_001a, "div $4, $5"),
        (Instr::Divu(DivuInstr { rs: 4, rt: 5 }), InstructionType::Divu, 0x0085_001b, "divu $4, $5"),
        (Instr::Mflo(MfloInstr { rd: 2 }), InstructionType::Mflo, 0x0000_1012, "mflo $2"),
        (Instr::Mfhi(MfhiInstr { rd: 2 }), InstructionType::Mfhi, 0x0000_1010, "mfhi $2"),
        (Instr::Mtlo(MtloInstr { rs: 9 }), InstructionType::Mtlo, 0x0120_0013, "mtlo $9"),
        (Instr::Mthi(MthiInstr { rs: 9 }), InstructionType::Mthi, 0x0120_0011, "mthi $9"),
    ]
}

#[test]
fn every_instruction_has_its_word() {
    let samples = samples();
    assert_eq!(samples.len(), 51);
    for (instr, _, word, _) in samples {
        assert_eq!(instr.to_machine_code(), word, "{:?}", instr);
    }
}

#[test]
fn every_instruction_has_its_text() {
    for (instr, _, _, text) in samples() {
        assert_eq!(instr.render_text(), text);
    }
}

#[test]
fn every_instruction_knows_its_type() {
    for (instr, kind, _, _) in samples() {
        assert_eq!(instr.kind(), kind);
    }
}

#[test]
fn operand_structs_encode_as_the_catalog_does() {
    assert_eq!(AddInstr { rs: 2, rt: 3, rd: 1 }.to_machine_code(), 0x0043_0820);
    assert_eq!(AddInstr { rs: 2, rt: 3, rd: 1 }.render_text(), "add $1, $2, $3");
    assert_eq!(LwInstr { base: 5, rt: 4, offset: -12 }.to_machine_code(), 0x8ca4_fff4);
    assert_eq!(LwInstr { base: 5, rt: 4, offset: -12 }.render_text(), "lw $4, -12($5)");
    assert_eq!(BeqInstr { rs: 1, rt: 2, offset: 7 }.render_text(), "beq $1, $2, 7");
    assert_eq!(NopInstr.to_machine_code(), 0);
    assert_eq!(NopInstr.render_text(), "nop");
}

#[test]
fn fields_sit_at_their_positions() {
    assert_eq!(gen_machine_code_r(0, 0, 0, 0, 0, 0), 0);
    assert_eq!(gen_machine_code_r(63, 0, 0, 0, 0, 0), 0xfc00_0000);
    assert_eq!(gen_machine_code_r(0, 31, 0, 0, 0, 0), 0x03e0_0000);
    assert_eq!(gen_machine_code_r(0, 0, 31, 0, 0, 0), 0x001f_0000);
    assert_eq!(gen_machine_code_r(0, 0, 0, 31, 0, 0), 0x0000_f800);
    assert_eq!(gen_machine_code_r(0, 0, 0, 0, 31, 0), 0x0000_07c0);
    assert_eq!(gen_machine_code_r(0, 0, 0, 0, 0, 63), 0x0000_003f);
    assert_eq!(gen_machine_code_r(63, 31, 31, 31, 31, 63), 0xffff_ffff);
    assert_eq!(gen_machine_code_i(63, 0, 0, 0), 0xfc00_0000);
    assert_eq!(gen_machine_code_i(0, 31, 0, 0), 0x03e0_0000);
    assert_eq!(gen_machine_code_i(0, 0, 31, 0), 0x001f_0000);
    assert_eq!(gen_machine_code_i(0, 0, 0, 0xffff), 0x0000_ffff);
    assert_eq!(gen_machine_code_j(63, 0), 0xfc00_0000);
    assert_eq!(gen_machine_code_j(0, 0x3ff_ffff), 0x03ff_ffff);
    assert_eq!(gen_machine_code_j(2, 0x123_4567), 0x0923_4567);
}

#[test]
fn operands_read_back_from_the_word() {
    for rs in [0u8, 1, 17, 31] {
        for rt in [0u8, 2, 30, 31] {
            for rd in [0u8, 5, 31] {
                let word = SubuInstr { rs, rt, rd }.to_machine_code();
                assert_eq!(word >> 26, 0);
                assert_eq!((word >> 21) & 31, rs as u32);
                assert_eq!((word >> 16) & 31, rt as u32);
                assert_eq!((word >> 11) & 31, rd as u32);
                assert_eq!((word >> 6) & 31, 0);
                assert_eq!(word & 63, 0b100011);
            }
            for imm in [i16::MIN, -1, 0, 1, i16::MAX] {
                let word = AddiInstr { rs, rt, imm }.to_machine_code();
                assert_eq!(word >> 26, 0b001000);
                assert_eq!((word >> 21) & 31, rs as u32);
                assert_eq!((word >> 16) & 31, rt as u32);
                assert_eq!(word as u16 as i16, imm);
            }
            for sa in [0u8, 1, 31] {
                let word = SraInstr { rt, rd: rs, sa }.to_machine_code();
                assert_eq!((word >> 16) & 31, rt as u32);
                assert_eq!((word >> 11) & 31, rs as u32);
                assert_eq!((word >> 6) & 31, sa as u32);
                assert_eq!(word & 63, 0b000011);
            }
        }
    }
    for addr in [0u32, 1, 0x3ff_ffff, 0x200_0000] {
        let word = JalInstr { addr }.to_machine_code();
        assert_eq!(word >> 26, 0b000011);
        assert_eq!(word & 0x3ff_ffff, addr);
    }
}

#[test]
fn types_know_whether_they_branch() {
    let branches = [
        InstructionType::Beq,
        InstructionType::Bne,
        InstructionType::Blez,
        InstructionType::Bltz,
        InstructionType::Bgez,
        InstructionType::Bgtz,
        InstructionType::J,
        InstructionType::Jal,
        InstructionType::Jr,
        InstructionType::Jalr,
    ];
    for (_, kind, _, _) in samples() {
        assert_eq!(kind.is_branch(), branches.contains(&kind), "{:?}", kind);
        assert_eq!(
            kind.is_jump_register(),
            kind == InstructionType::Jr || kind == InstructionType::Jalr
        );
    }
}

#[test]
fn types_know_whether_they_touch_memory() {
    let memory = [
        InstructionType::Lb,
        InstructionType::Lbu,
        InstructionType::Lh,
        InstructionType::Lhu,
        InstructionType::Lw,
        InstructionType::Sb,
        InstructionType::Sh,
        InstructionType::Sw,
    ];
    for (_, kind, _, _) in samples() {
        assert_eq!(kind.is_memory(), memory.contains(&kind), "{:?}", kind);
    }
}

#[test]
fn operand_structs_are_at_hand_under_one_path() {
    let instr = co_tester::instr::MfloInstr { rd: 2 };
    assert_eq!(Instr::Mflo(instr).to_machine_code(), instr.to_machine_code());
    assert_eq!(instr, MfloInstr { rd: 2 });
}
