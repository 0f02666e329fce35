use vstd::arithmetic::div_mod::{lemma_div_of0, lemma_small_mod};
use vstd::prelude::*;
use crate::bits::{imm_bits, imm_value, signed};
use crate::encoding::{
    field_addr,
    field_func,
    field_imm,
    field_op,
    field_rd,
    field_rs,
    field_rt,
    field_shamt,
    lemma_fields_of_encode_i,
    lemma_fields_of_encode_j,
    lemma_fields_of_encode_r,
};
use crate::gen::InstructionType;
use crate::instr::arith::{
    AddInstr,
    AddiInstr,
    AddiuInstr,
    AdduInstr,
    LuiInstr,
    NopInstr,
    SltInstr,
    SltiInstr,
    SltiuInstr,
    SltuInstr,
    SubInstr,
    SubuInstr,
};
use crate::instr::branch::{
    BeqInstr,
    BgezInstr,
    BgtzInstr,
    BlezInstr,
    BltzInstr,
    BneInstr,
    JInstr,
    JalInstr,
    JalrInstr,
    JrInstr,
};
use crate::instr::logic::{
    AndInstr,
    AndiInstr,
    NorInstr,
    OrInstr,
    OriInstr,
    XorInstr,
    XoriInstr,
};
use crate::instr::memory::{
    LbInstr,
    LbuInstr,
    LhInstr,
    LhuInstr,
    LwInstr,
    SbInstr,
    ShInstr,
    SwInstr,
};
use crate::instr::muldiv::{
    DivInstr,
    DivuInstr,
    MfhiInstr,
    MfloInstr,
    MthiInstr,
    MtloInstr,
    MultInstr,
    MultuInstr,
};
use crate::instr::shift::{
    SllInstr,
    SllvInstr,
    SraInstr,
    SravInstr,
    SrlInstr,
    SrlvInstr,
};
use crate::machine::{
    branch_target,
    jump_target,
    BranchResult,
    Instruction,
    MachineModel,
    MipsMachine,
};

verus! {

/// An instruction of any kind: one case per opcode, each holding its operands.
#[derive(Debug, PartialEq, Eq, Clone, Copy, Structural)]
pub enum Instr {
    Nop(NopInstr),
    Add(AddInstr),
    Addi(AddiInstr),
    Addu(AdduInstr),
    Addiu(AddiuInstr),
    Sub(SubInstr),
    Subu(SubuInstr),
    Sll(SllInstr),
    Sllv(SllvInstr),
    Srl(SrlInstr),
    Srlv(SrlvInstr),
    Sra(SraInstr),
    Srav(SravInstr),
    And(AndInstr),
    Andi(AndiInstr),
    Or(OrInstr),
    Ori(OriInstr),
    Xor(XorInstr),
    Xori(XoriInstr),
    Nor(NorInstr),
    Lui(LuiInstr),
    Lb(LbInstr),
    Lbu(LbuInstr),
    Lh(LhInstr),
    Lhu(LhuInstr),
    Lw(LwInstr),
    Sb(SbInstr),
    Sh(ShInstr),
    Sw(SwInstr),
    Slt(SltInstr),
    Slti(SltiInstr),
    Sltu(SltuInstr),
    Sltiu(SltiuInstr),
    Beq(BeqInstr),
    Bne(BneInstr),
    Blez(BlezInstr),
    Bltz(BltzInstr),
    Bgez(BgezInstr),
    Bgtz(BgtzInstr),
    J(JInstr),
    Jal(JalInstr),
    Jr(JrInstr),
    Jalr(JalrInstr),
    Mult(MultInstr),
    Multu(MultuInstr),
    Div(DivInstr),
    Divu(DivuInstr),
    Mflo(MfloInstr),
    Mfhi(MfhiInstr),
    Mtlo(MtloInstr),
    Mthi(MthiInstr),
}

impl Instruction for Instr {
    open spec fn wf(&self) -> bool {
        match *self {
            Instr::Nop(i) => i.wf(),
            Instr::Add(i) => i.wf(),
            Instr::Addi(i) => i.wf(),
            Instr::Addu(i) => i.wf(),
            Instr::Addiu(i) => i.wf(),
            Instr::Sub(i) => i.wf(),
            Instr::Subu(i) => i.wf(),
            Instr::Sll(i) => i.wf(),
            Instr::Sllv(i) => i.wf(),
            Instr::Srl(i) => i.wf(),
            Instr::Srlv(i) => i.wf(),
            Instr::Sra(i) => i.wf(),
            Instr::Srav(i) => i.wf(),
            Instr::And(i) => i.wf(),
            Instr::Andi(i) => i.wf(),
            Instr::Or(i) => i.wf(),
            Instr::Ori(i) => i.wf(),
            Instr::Xor(i) => i.wf(),
            Instr::Xori(i) => i.wf(),
            Instr::Nor(i) => i.wf(),
            Instr::Lui(i) => i.wf(),
            Instr::Lb(i) => i.wf(),
            Instr::Lbu(i) => i.wf(),
            Instr::Lh(i) => i.wf(),
            Instr::Lhu(i) => i.wf(),
            Instr::Lw(i) => i.wf(),
            Instr::Sb(i) => i.wf(),
            Instr::Sh(i) => i.wf(),
            Instr::Sw(i) => i.wf(),
            Instr::Slt(i) => i.wf(),
            Instr::Slti(i) => i.wf(),
            Instr::Sltu(i) => i.wf(),
            Instr::Sltiu(i) => i.wf(),
            Instr::Beq(i) => i.wf(),
            Instr::Bne(i) => i.wf(),
            Instr::Blez(i) => i.wf(),
            Instr::Bltz(i) => i.wf(),
            Instr::Bgez(i) => i.wf(),
            Instr::Bgtz(i) => i.wf(),
            Instr::J(i) => i.wf(),
            Instr::Jal(i) => i.wf(),
            Instr::Jr(i) => i.wf(),
            Instr::Jalr(i) => i.wf(),
            Instr::Mult(i) => i.wf(),
            Instr::Multu(i) => i.wf(),
            Instr::Div(i) => i.wf(),
            Instr::Divu(i) => i.wf(),
            Instr::Mflo(i) => i.wf(),
            Instr::Mfhi(i) => i.wf(),
            Instr::Mtlo(i) => i.wf(),
            Instr::Mthi(i) => i.wf(),
        }
    }

    open spec fn is_branch(&self) -> bool {
        match *self {
            Instr::Nop(i) => i.is_branch(),
            Instr::Add(i) => i.is_branch(),
            Instr::Addi(i) => i.is_branch(),
            Instr::Addu(i) => i.is_branch(),
            Instr::Addiu(i) => i.is_branch(),
            Instr::Sub(i) => i.is_branch(),
            Instr::Subu(i) => i.is_branch(),
            Instr::Sll(i) => i.is_branch(),
            Instr::Sllv(i) => i.is_branch(),
            Instr::Srl(i) => i.is_branch(),
            Instr::Srlv(i) => i.is_branch(),
            Instr::Sra(i) => i.is_branch(),
            Instr::Srav(i) => i.is_branch(),
            Instr::And(i) => i.is_branch(),
            Instr::Andi(i) => i.is_branch(),
            Instr::Or(i) => i.is_branch(),
            Instr::Ori(i) => i.is_branch(),
            Instr::Xor(i) => i.is_branch(),
            Instr::Xori(i) => i.is_branch(),
            Instr::Nor(i) => i.is_branch(),
            Instr::Lui(i) => i.is_branch(),
            Instr::Lb(i) => i.is_branch(),
            Instr::Lbu(i) => i.is_branch(),
            Instr::Lh(i) => i.is_branch(),
            Instr::Lhu(i) => i.is_branch(),
            Instr::Lw(i) => i.is_branch(),
            Instr::Sb(i) => i.is_branch(),
            Instr::Sh(i) => i.is_branch(),
            Instr::Sw(i) => i.is_branch(),
            Instr::Slt(i) => i.is_branch(),
            Instr::Slti(i) => i.is_branch(),
            Instr::Sltu(i) => i.is_branch(),
            Instr::Sltiu(i) => i.is_branch(),
            Instr::Beq(i) => i.is_branch(),
            Instr::Bne(i) => i.is_branch(),
            Instr::Blez(i) => i.is_branch(),
            Instr::Bltz(i) => i.is_branch(),
            Instr::Bgez(i) => i.is_branch(),
            Instr::Bgtz(i) => i.is_branch(),
            Instr::J(i) => i.is_branch(),
            Instr::Jal(i) => i.is_branch(),
            Instr::Jr(i) => i.is_branch(),
            Instr::Jalr(i) => i.is_branch(),
            Instr::Mult(i) => i.is_branch(),
            Instr::Multu(i) => i.is_branch(),
            Instr::Div(i) => i.is_branch(),
            Instr::Divu(i) => i.is_branch(),
            Instr::Mflo(i) => i.is_branch(),
            Instr::Mfhi(i) => i.is_branch(),
            Instr::Mtlo(i) => i.is_branch(),
            Instr::Mthi(i) => i.is_branch(),
        }
    }

    open spec fn encoding(&self) -> u32 {
        match *self {
            Instr::Nop(i) => i.encoding(),
            Instr::Add(i) => i.encoding(),
            Instr::Addi(i) => i.encoding(),
            Instr::Addu(i) => i.encoding(),
            Instr::Addiu(i) => i.encoding(),
            Instr::Sub(i) => i.encoding(),
            Instr::Subu(i) => i.encoding(),
            Instr::Sll(i) => i.encoding(),
            Instr::Sllv(i) => i.encoding(),
            Instr::Srl(i) => i.encoding(),
            Instr::Srlv(i) => i.encoding(),
            Instr::Sra(i) => i.encoding(),
            Instr::Srav(i) => i.encoding(),
            Instr::And(i) => i.encoding(),
            Instr::Andi(i) => i.encoding(),
            Instr::Or(i) => i.encoding(),
            Instr::Ori(i) => i.encoding(),
            Instr::Xor(i) => i.encoding(),
            Instr::Xori(i) => i.encoding(),
            Instr::Nor(i) => i.encoding(),
            Instr::Lui(i) => i.encoding(),
            Instr::Lb(i) => i.encoding(),
            Instr::Lbu(i) => i.encoding(),
            Instr::Lh(i) => i.encoding(),
            Instr::Lhu(i) => i.encoding(),
            Instr::Lw(i) => i.encoding(),
            Instr::Sb(i) => i.encoding(),
            Instr::Sh(i) => i.encoding(),
            Instr::Sw(i) => i.encoding(),
            Instr::Slt(i) => i.encoding(),
            Instr::Slti(i) => i.encoding(),
            Instr::Sltu(i) => i.encoding(),
            Instr::Sltiu(i) => i.encoding(),
            Instr::Beq(i) => i.encoding(),
            Instr::Bne(i) => i.encoding(),
            Instr::Blez(i) => i.encoding(),
            Instr::Bltz(i) => i.encoding(),
            Instr::Bgez(i) => i.encoding(),
            Instr::Bgtz(i) => i.encoding(),
            Instr::J(i) => i.encoding(),
            Instr::Jal(i) => i.encoding(),
            Instr::Jr(i) => i.encoding(),
            Instr::Jalr(i) => i.encoding(),
            Instr::Mult(i) => i.encoding(),
            Instr::Multu(i) => i.encoding(),
            Instr::Div(i) => i.encoding(),
            Instr::Divu(i) => i.encoding(),
            Instr::Mflo(i) => i.encoding(),
            Instr::Mfhi(i) => i.encoding(),
            Instr::Mtlo(i) => i.encoding(),
            Instr::Mthi(i) => i.encoding(),
        }
    }

    #[verifier::opaque]
    open spec fn apply(&self, m: MachineModel) -> MachineModel {
        match *self {
            Instr::Nop(i) => i.apply(m),
            Instr::Add(i) => i.apply(m),
            Instr::Addi(i) => i.apply(m),
            Instr::Addu(i) => i.apply(m),
            Instr::Addiu(i) => i.apply(m),
            Instr::Sub(i) => i.apply(m),
            Instr::Subu(i) => i.apply(m),
            Instr::Sll(i) => i.apply(m),
            Instr::Sllv(i) => i.apply(m),
            Instr::Srl(i) => i.apply(m),
            Instr::Srlv(i) => i.apply(m),
            Instr::Sra(i) => i.apply(m),
            Instr::Srav(i) => i.apply(m),
            Instr::And(i) => i.apply(m),
            Instr::Andi(i) => i.apply(m),
            Instr::Or(i) => i.apply(m),
            Instr::Ori(i) => i.apply(m),
            Instr::Xor(i) => i.apply(m),
            Instr::Xori(i) => i.apply(m),
            Instr::Nor(i) => i.apply(m),
            Instr::Lui(i) => i.apply(m),
            Instr::Lb(i) => i.apply(m),
            Instr::Lbu(i) => i.apply(m),
            Instr::Lh(i) => i.apply(m),
            Instr::Lhu(i) => i.apply(m),
            Instr::Lw(i) => i.apply(m),
            Instr::Sb(i) => i.apply(m),
            Instr::Sh(i) => i.apply(m),
            Instr::Sw(i) => i.apply(m),
            Instr::Slt(i) => i.apply(m),
            Instr::Slti(i) => i.apply(m),
            Instr::Sltu(i) => i.apply(m),
            Instr::Sltiu(i) => i.apply(m),
            Instr::Beq(i) => i.apply(m),
            Instr::Bne(i) => i.apply(m),
            Instr::Blez(i) => i.apply(m),
            Instr::Bltz(i) => i.apply(m),
            Instr::Bgez(i) => i.apply(m),
            Instr::Bgtz(i) => i.apply(m),
            Instr::J(i) => i.apply(m),
            Instr::Jal(i) => i.apply(m),
            Instr::Jr(i) => i.apply(m),
            Instr::Jalr(i) => i.apply(m),
            Instr::Mult(i) => i.apply(m),
            Instr::Multu(i) => i.apply(m),
            Instr::Div(i) => i.apply(m),
            Instr::Divu(i) => i.apply(m),
            Instr::Mflo(i) => i.apply(m),
            Instr::Mfhi(i) => i.apply(m),
            Instr::Mtlo(i) => i.apply(m),
            Instr::Mthi(i) => i.apply(m),
        }
    }

    open spec fn outcome(&self, m: MachineModel) -> BranchResult {
        match *self {
            Instr::Nop(i) => i.outcome(m),
            Instr::Add(i) => i.outcome(m),
            Instr::Addi(i) => i.outcome(m),
            Instr::Addu(i) => i.outcome(m),
            Instr::Addiu(i) => i.outcome(m),
            Instr::Sub(i) => i.outcome(m),
            Instr::Subu(i) => i.outcome(m),
            Instr::Sll(i) => i.outcome(m),
            Instr::Sllv(i) => i.outcome(m),
            Instr::Srl(i) => i.outcome(m),
            Instr::Srlv(i) => i.outcome(m),
            Instr::Sra(i) => i.outcome(m),
            Instr::Srav(i) => i.outcome(m),
            Instr::And(i) => i.outcome(m),
            Instr::Andi(i) => i.outcome(m),
            Instr::Or(i) => i.outcome(m),
            Instr::Ori(i) => i.outcome(m),
            Instr::Xor(i) => i.outcome(m),
            Instr::Xori(i) => i.outcome(m),
            Instr::Nor(i) => i.outcome(m),
            Instr::Lui(i) => i.outcome(m),
            Instr::Lb(i) => i.outcome(m),
            Instr::Lbu(i) => i.outcome(m),
            Instr::Lh(i) => i.outcome(m),
            Instr::Lhu(i) => i.outcome(m),
            Instr::Lw(i) => i.outcome(m),
            Instr::Sb(i) => i.outcome(m),
            Instr::Sh(i) => i.outcome(m),
            Instr::Sw(i) => i.outcome(m),
            Instr::Slt(i) => i.outcome(m),
            Instr::Slti(i) => i.outcome(m),
            Instr::Sltu(i) => i.outcome(m),
            Instr::Sltiu(i) => i.outcome(m),
            Instr::Beq(i) => i.outcome(m),
            Instr::Bne(i) => i.outcome(m),
            Instr::Blez(i) => i.outcome(m),
            Instr::Bltz(i) => i.outcome(m),
            Instr::Bgez(i) => i.outcome(m),
            Instr::Bgtz(i) => i.outcome(m),
            Instr::J(i) => i.outcome(m),
            Instr::Jal(i) => i.outcome(m),
            Instr::Jr(i) => i.outcome(m),
            Instr::Jalr(i) => i.outcome(m),
            Instr::Mult(i) => i.outcome(m),
            Instr::Multu(i) => i.outcome(m),
            Instr::Div(i) => i.outcome(m),
            Instr::Divu(i) => i.outcome(m),
            Instr::Mflo(i) => i.outcome(m),
            Instr::Mfhi(i) => i.outcome(m),
            Instr::Mtlo(i) => i.outcome(m),
            Instr::Mthi(i) => i.outcome(m),
        }
    }

    open spec fn text(&self) -> Seq<char> {
        match *self {
            Instr::Nop(i) => i.text(),
            Instr::Add(i) => i.text(),
            Instr::Addi(i) => i.text(),
            Instr::Addu(i) => i.text(),
            Instr::Addiu(i) => i.text(),
            Instr::Sub(i) => i.text(),
            Instr::Subu(i) => i.text(),
            Instr::Sll(i) => i.text(),
            Instr::Sllv(i) => i.text(),
            Instr::Srl(i) => i.text(),
            Instr::Srlv(i) => i.text(),
            Instr::Sra(i) => i.text(),
            Instr::Srav(i) => i.text(),
            Instr::And(i) => i.text(),
            Instr::Andi(i) => i.text(),
            Instr::Or(i) => i.text(),
            Instr::Ori(i) => i.text(),
            Instr::Xor(i) => i.text(),
            Instr::Xori(i) => i.text(),
            Instr::Nor(i) => i.text(),
            Instr::Lui(i) => i.text(),
            Instr::Lb(i) => i.text(),
            Instr::Lbu(i) => i.text(),
            Instr::Lh(i) => i.text(),
            Instr::Lhu(i) => i.text(),
            Instr::Lw(i) => i.text(),
            Instr::Sb(i) => i.text(),
            Instr::Sh(i) => i.text(),
            Instr::Sw(i) => i.text(),
            Instr::Slt(i) => i.text(),
            Instr::Slti(i) => i.text(),
            Instr::Sltu(i) => i.text(),
            Instr::Sltiu(i) => i.text(),
            Instr::Beq(i) => i.text(),
            Instr::Bne(i) => i.text(),
            Instr::Blez(i) => i.text(),
            Instr::Bltz(i) => i.text(),
            Instr::Bgez(i) => i.text(),
            Instr::Bgtz(i) => i.text(),
            Instr::J(i) => i.text(),
            Instr::Jal(i) => i.text(),
            Instr::Jr(i) => i.text(),
            Instr::Jalr(i) => i.text(),
            Instr::Mult(i) => i.text(),
            Instr::Multu(i) => i.text(),
            Instr::Div(i) => i.text(),
            Instr::Divu(i) => i.text(),
            Instr::Mflo(i) => i.text(),
            Instr::Mfhi(i) => i.text(),
            Instr::Mtlo(i) => i.text(),
            Instr::Mthi(i) => i.text(),
        }
    }

    fn render_text(&self) -> (s: String) {
        match self {
            Instr::Nop(i) => i.render_text(),
            Instr::Add(i) => i.render_text(),
            Instr::Addi(i) => i.render_text(),
            Instr::Addu(i) => i.render_text(),
            Instr::Addiu(i) => i.render_text(),
            Instr::Sub(i) => i.render_text(),
            Instr::Subu(i) => i.render_text(),
            Instr::Sll(i) => i.render_text(),
            Instr::Sllv(i) => i.render_text(),
            Instr::Srl(i) => i.render_text(),
            Instr::Srlv(i) => i.render_text(),
            Instr::Sra(i) => i.render_text(),
            Instr::Srav(i) => i.render_text(),
            Instr::And(i) => i.render_text(),
            Instr::Andi(i) => i.render_text(),
            Instr::Or(i) => i.render_text(),
            Instr::Ori(i) => i.render_text(),
            Instr::Xor(i) => i.render_text(),
            Instr::Xori(i) => i.render_text(),
            Instr::Nor(i) => i.render_text(),
            Instr::Lui(i) => i.render_text(),
            Instr::Lb(i) => i.render_text(),
            Instr::Lbu(i) => i.render_text(),
            Instr::Lh(i) => i.render_text(),
            Instr::Lhu(i) => i.render_text(),
            Instr::Lw(i) => i.render_text(),
            Instr::Sb(i) => i.render_text(),
            Instr::Sh(i) => i.render_text(),
            Instr::Sw(i) => i.render_text(),
            Instr::Slt(i) => i.render_text(),
            Instr::Slti(i) => i.render_text(),
            Instr::Sltu(i) => i.render_text(),
            Instr::Sltiu(i) => i.render_text(),
            Instr::Beq(i) => i.render_text(),
            Instr::Bne(i) => i.render_text(),
            Instr::Blez(i) => i.render_text(),
            Instr::Bltz(i) => i.render_text(),
            Instr::Bgez(i) => i.render_text(),
            Instr::Bgtz(i) => i.render_text(),
            Instr::J(i) => i.render_text(),
            Instr::Jal(i) => i.render_text(),
            Instr::Jr(i) => i.render_text(),
            Instr::Jalr(i) => i.render_text(),
            Instr::Mult(i) => i.render_text(),
            Instr::Multu(i) => i.render_text(),
            Instr::Div(i) => i.render_text(),
            Instr::Divu(i) => i.render_text(),
            Instr::Mflo(i) => i.render_text(),
            Instr::Mfhi(i) => i.render_text(),
            Instr::Mtlo(i) => i.render_text(),
            Instr::Mthi(i) => i.render_text(),
        }
    }

    fn to_machine_code(&self) -> (code: u32) {
        match self {
            Instr::Nop(i) => i.to_machine_code(),
            Instr::Add(i) => i.to_machine_code(),
            Instr::Addi(i) => i.to_machine_code(),
            Instr::Addu(i) => i.to_machine_code(),
            Instr::Addiu(i) => i.to_machine_code(),
            Instr::Sub(i) => i.to_machine_code(),
            Instr::Subu(i) => i.to_machine_code(),
            Instr::Sll(i) => i.to_machine_code(),
            Instr::Sllv(i) => i.to_machine_code(),
            Instr::Srl(i) => i.to_machine_code(),
            Instr::Srlv(i) => i.to_machine_code(),
            Instr::Sra(i) => i.to_machine_code(),
            Instr::Srav(i) => i.to_machine_code(),
            Instr::And(i) => i.to_machine_code(),
            Instr::Andi(i) => i.to_machine_code(),
            Instr::Or(i) => i.to_machine_code(),
            Instr::Ori(i) => i.to_machine_code(),
            Instr::Xor(i) => i.to_machine_code(),
            Instr::Xori(i) => i.to_machine_code(),
            Instr::Nor(i) => i.to_machine_code(),
            Instr::Lui(i) => i.to_machine_code(),
            Instr::Lb(i) => i.to_machine_code(),
            Instr::Lbu(i) => i.to_machine_code(),
            Instr::Lh(i) => i.to_machine_code(),
            Instr::Lhu(i) => i.to_machine_code(),
            Instr::Lw(i) => i.to_machine_code(),
            Instr::Sb(i) => i.to_machine_code(),
            Instr::Sh(i) => i.to_machine_code(),
            Instr::Sw(i) => i.to_machine_code(),
            Instr::Slt(i) => i.to_machine_code(),
            Instr::Slti(i) => i.to_machine_code(),
            Instr::Sltu(i) => i.to_machine_code(),
            Instr::Sltiu(i) => i.to_machine_code(),
            Instr::Beq(i) => i.to_machine_code(),
            Instr::Bne(i) => i.to_machine_code(),
            Instr::Blez(i) => i.to_machine_code(),
            Instr::Bltz(i) => i.to_machine_code(),
            Instr::Bgez(i) => i.to_machine_code(),
            Instr::Bgtz(i) => i.to_machine_code(),
            Instr::J(i) => i.to_machine_code(),
            Instr::Jal(i) => i.to_machine_code(),
            Instr::Jr(i) => i.to_machine_code(),
            Instr::Jalr(i) => i.to_machine_code(),
            Instr::Mult(i) => i.to_machine_code(),
            Instr::Multu(i) => i.to_machine_code(),
            Instr::Div(i) => i.to_machine_code(),
            Instr::Divu(i) => i.to_machine_code(),
            Instr::Mflo(i) => i.to_machine_code(),
            Instr::Mfhi(i) => i.to_machine_code(),
            Instr::Mtlo(i) => i.to_machine_code(),
            Instr::Mthi(i) => i.to_machine_code(),
        }
    }

    fn execute_on(&self, machine: &mut MipsMachine) -> (res: BranchResult) {
        proof {
            reveal(<Instr as Instruction>::apply);
        }
        match self {
            Instr::Nop(i) => i.execute_on(machine),
            Instr::Add(i) => i.execute_on(machine),
            Instr::Addi(i) => i.execute_on(machine),
            Instr::Addu(i) => i.execute_on(machine),
            Instr::Addiu(i) => i.execute_on(machine),
            Instr::Sub(i) => i.execute_on(machine),
            Instr::Subu(i) => i.execute_on(machine),
            Instr::Sll(i) => i.execute_on(machine),
            Instr::Sllv(i) => i.execute_on(machine),
            Instr::Srl(i) => i.execute_on(machine),
            Instr::Srlv(i) => i.execute_on(machine),
            Instr::Sra(i) => i.execute_on(machine),
            Instr::Srav(i) => i.execute_on(machine),
            Instr::And(i) => i.execute_on(machine),
            Instr::Andi(i) => i.execute_on(machine),
            Instr::Or(i) => i.execute_on(machine),
            Instr::Ori(i) => i.execute_on(machine),
            Instr::Xor(i) => i.execute_on(machine),
            Instr::Xori(i) => i.execute_on(machine),
            Instr::Nor(i) => i.execute_on(machine),
            Instr::Lui(i) => i.execute_on(machine),
            Instr::Lb(i) => i.execute_on(machine),
            Instr::Lbu(i) => i.execute_on(machine),
            Instr::Lh(i) => i.execute_on(machine),
            Instr::Lhu(i) => i.execute_on(machine),
            Instr::Lw(i) => i.execute_on(machine),
            Instr::Sb(i) => i.execute_on(machine),
            Instr::Sh(i) => i.execute_on(machine),
            Instr::Sw(i) => i.execute_on(machine),
            Instr::Slt(i) => i.execute_on(machine),
            Instr::Slti(i) => i.execute_on(machine),
            Instr::Sltu(i) => i.execute_on(machine),
            Instr::Sltiu(i) => i.execute_on(machine),
            Instr::Beq(i) => i.execute_on(machine),
            Instr::Bne(i) => i.execute_on(machine),
            Instr::Blez(i) => i.execute_on(machine),
            Instr::Bltz(i) => i.execute_on(machine),
            Instr::Bgez(i) => i.execute_on(machine),
            Instr::Bgtz(i) => i.execute_on(machine),
            Instr::J(i) => i.execute_on(machine),
            Instr::Jal(i) => i.execute_on(machine),
            Instr::Jr(i) => i.execute_on(machine),
            Instr::Jalr(i) => i.execute_on(machine),
            Instr::Mult(i) => i.execute_on(machine),
            Instr::Multu(i) => i.execute_on(machine),
            Instr::Div(i) => i.execute_on(machine),
            Instr::Divu(i) => i.execute_on(machine),
            Instr::Mflo(i) => i.execute_on(machine),
            Instr::Mfhi(i) => i.execute_on(machine),
            Instr::Mtlo(i) => i.execute_on(machine),
            Instr::Mthi(i) => i.execute_on(machine),
        }
    }
}

impl Instr {
    /// The opcode of the instruction, without its operands.
    pub open spec fn spec_kind(&self) -> InstructionType {
        match *self {
            Instr::Nop(_) => InstructionType::Nop,
            Instr::Add(_) => InstructionType::Add,
            Instr::Addi(_) => InstructionType::Addi,
            Instr::Addu(_) => InstructionType::Addu,
            Instr::Addiu(_) => InstructionType::Addiu,
            Instr::Sub(_) => InstructionType::Sub,
            Instr::Subu(_) => InstructionType::Subu,
            Instr::Sll(_) => InstructionType::Sll,
            Instr::Sllv(_) => InstructionType::Sllv,
            Instr::Srl(_) => InstructionType::Srl,
            Instr::Srlv(_) => InstructionType::Srlv,
            Instr::Sra(_) => InstructionType::Sra,
            Instr::Srav(_) => InstructionType::Srav,
            Instr::And(_) => InstructionType::And,
            Instr::Andi(_) => InstructionType::Andi,
            Instr::Or(_) => InstructionType::Or,
            Instr::Ori(_) => InstructionType::Ori,
            Instr::Xor(_) => InstructionType::Xor,
            Instr::Xori(_) => InstructionType::Xori,
            Instr::Nor(_) => InstructionType::Nor,
            Instr::Lui(_) => InstructionType::Lui,
            Instr::Lb(_) => InstructionType::Lb,
            Instr::Lbu(_) => InstructionType::Lbu,
            Instr::Lh(_) => InstructionType::Lh,
            Instr::Lhu(_) => InstructionType::Lhu,
            Instr::Lw(_) => InstructionType::Lw,
            Instr::Sb(_) => InstructionType::Sb,
            Instr::Sh(_) => InstructionType::Sh,
            Instr::Sw(_) => InstructionType::Sw,
            Instr::Slt(_) => InstructionType::Slt,
            Instr::Slti(_) => InstructionType::Slti,
            Instr::Sltu(_) => InstructionType::Sltu,
            Instr::Sltiu(_) => InstructionType::Sltiu,
            Instr::Beq(_) => InstructionType::Beq,
            Instr::Bne(_) => InstructionType::Bne,
            Instr::Blez(_) => InstructionType::Blez,
            Instr::Bltz(_) => InstructionType::Bltz,
            Instr::Bgez(_) => InstructionType::Bgez,
            Instr::Bgtz(_) => InstructionType::Bgtz,
            Instr::J(_) => InstructionType::J,
            Instr::Jal(_) => InstructionType::Jal,
            Instr::Jr(_) => InstructionType::Jr,
            Instr::Jalr(_) => InstructionType::Jalr,
            Instr::Mult(_) => InstructionType::Mult,
            Instr::Multu(_) => InstructionType::Multu,
            Instr::Div(_) => InstructionType::Div,
            Instr::Divu(_) => InstructionType::Divu,
            Instr::Mflo(_) => InstructionType::Mflo,
            Instr::Mfhi(_) => InstructionType::Mfhi,
            Instr::Mtlo(_) => InstructionType::Mtlo,
            Instr::Mthi(_) => InstructionType::Mthi,
        }
    }

    #[verifier::when_used_as_spec(spec_kind)]
    pub fn kind(&self) -> (kind: InstructionType)
        ensures
            kind == self.spec_kind(),
    {
        match self {
            Instr::Nop(_) => InstructionType::Nop,
            Instr::Add(_) => InstructionType::Add,
            Instr::Addi(_) => InstructionType::Addi,
            Instr::Addu(_) => InstructionType::Addu,
            Instr::Addiu(_) => InstructionType::Addiu,
            Instr::Sub(_) => InstructionType::Sub,
            Instr::Subu(_) => InstructionType::Subu,
            Instr::Sll(_) => InstructionType::Sll,
            Instr::Sllv(_) => InstructionType::Sllv,
            Instr::Srl(_) => InstructionType::Srl,
            Instr::Srlv(_) => InstructionType::Srlv,
            Instr::Sra(_) => InstructionType::Sra,
            Instr::Srav(_) => InstructionType::Srav,
            Instr::And(_) => InstructionType::And,
            Instr::Andi(_) => InstructionType::Andi,
            Instr::Or(_) => InstructionType::Or,
            Instr::Ori(_) => InstructionType::Ori,
            Instr::Xor(_) => InstructionType::Xor,
            Instr::Xori(_) => InstructionType::Xori,
            Instr::Nor(_) => InstructionType::Nor,
            Instr::Lui(_) => InstructionType::Lui,
            Instr::Lb(_) => InstructionType::Lb,
            Instr::Lbu(_) => InstructionType::Lbu,
            Instr::Lh(_) => InstructionType::Lh,
            Instr::Lhu(_) => InstructionType::Lhu,
            Instr::Lw(_) => InstructionType::Lw,
            Instr::Sb(_) => InstructionType::Sb,
            Instr::Sh(_) => InstructionType::Sh,
            Instr::Sw(_) => InstructionType::Sw,
            Instr::Slt(_) => InstructionType::Slt,
            Instr::Slti(_) => InstructionType::Slti,
            Instr::Sltu(_) => InstructionType::Sltu,
            Instr::Sltiu(_) => InstructionType::Sltiu,
            Instr::Beq(_) => InstructionType::Beq,
            Instr::Bne(_) => InstructionType::Bne,
            Instr::Blez(_) => InstructionType::Blez,
            Instr::Bltz(_) => InstructionType::Bltz,
            Instr::Bgez(_) => InstructionType::Bgez,
            Instr::Bgtz(_) => InstructionType::Bgtz,
            Instr::J(_) => InstructionType::J,
            Instr::Jal(_) => InstructionType::Jal,
            Instr::Jr(_) => InstructionType::Jr,
            Instr::Jalr(_) => InstructionType::Jalr,
            Instr::Mult(_) => InstructionType::Mult,
            Instr::Multu(_) => InstructionType::Multu,
            Instr::Div(_) => InstructionType::Div,
            Instr::Divu(_) => InstructionType::Divu,
            Instr::Mflo(_) => InstructionType::Mflo,
            Instr::Mfhi(_) => InstructionType::Mfhi,
            Instr::Mtlo(_) => InstructionType::Mtlo,
            Instr::Mthi(_) => InstructionType::Mthi,
        }
    }

    /// The address that a branch or jump names, whether or not it is taken;
    /// `None` for the other instructions.
    pub open spec fn destination(&self, m: MachineModel) -> Option<u32> {
        match *self {
            Instr::Beq(i) => Some(branch_target(m.pc, i.offset)),
            Instr::Bne(i) => Some(branch_target(m.pc, i.offset)),
            Instr::Blez(i) => Some(branch_target(m.pc, i.offset)),
            Instr::Bltz(i) => Some(branch_target(m.pc, i.offset)),
            Instr::Bgez(i) => Some(branch_target(m.pc, i.offset)),
            Instr::Bgtz(i) => Some(branch_target(m.pc, i.offset)),
            Instr::J(i) => Some(jump_target(m.pc, i.addr)),
            Instr::Jal(i) => Some(jump_target(m.pc, i.addr)),
            Instr::Jr(i) => Some(m.grf[i.rs as int]),
            Instr::Jalr(i) => Some(m.grf[i.rs as int]),
            _ => None,
        }
    }

    /// The byte address that a load or store touches and the width of the
    /// access in bytes; `None` for the other instructions.
    pub open spec fn access(&self, m: MachineModel) -> Option<(u32, u32)> {
        match *self {
            Instr::Lb(i) => Some((m.effective_address(i.base, i.offset), 1)),
            Instr::Lbu(i) => Some((m.effective_address(i.base, i.offset), 1)),
            Instr::Lh(i) => Some((m.effective_address(i.base, i.offset), 2)),
            Instr::Lhu(i) => Some((m.effective_address(i.base, i.offset), 2)),
            Instr::Lw(i) => Some((m.effective_address(i.base, i.offset), 4)),
            Instr::Sb(i) => Some((m.effective_address(i.base, i.offset), 1)),
            Instr::Sh(i) => Some((m.effective_address(i.base, i.offset), 2)),
            Instr::Sw(i) => Some((m.effective_address(i.base, i.offset), 4)),
            _ => None,
        }
    }
}

/// The instruction that a register-type word (opcode 0) stands for, by its
/// function code.
pub open spec fn decode_register_type(word: u32) -> Option<Instr> {
    let func = field_func(word);
    if func == 0b100000 {
        Some(Instr::Add(
            AddInstr {
                rs: field_rs(word) as u8,
                rt: field_rt(word) as u8,
                rd: field_rd(word) as u8,
            },
        ))
    } else if func == 0b100001 {
        Some(Instr::Addu(
            AdduInstr {
                rs: field_rs(word) as u8,
                rt: field_rt(word) as u8,
                rd: field_rd(word) as u8,
            },
        ))
    } else if func == 0b100010 {
        Some(Instr::Sub(
            SubInstr {
                rs: field_rs(word) as u8,
                rt: field_rt(word) as u8,
                rd: field_rd(word) as u8,
            },
        ))
    } else if func == 0b100011 {
        Some(Instr::Subu(
            SubuInstr {
                rs: field_rs(word) as u8,
                rt: field_rt(word) as u8,
                rd: field_rd(word) as u8,
            },
        ))
    } else if func == 0b000000 {
        Some(Instr::Sll(
            SllInstr {
                rt: field_rt(word) as u8,
                rd: field_rd(word) as u8,
                sa: field_shamt(word) as u8,
            },
        ))
    } else if func == 0b000100 {
        Some(Instr::Sllv(
            SllvInstr {
                rs: field_rs(word) as u8,
                rt: field_rt(word) as u8,
                rd: field_rd(word) as u8,
            },
        ))
    } else if func == 0b000010 {
        Some(Instr::Srl(
            SrlInstr {
                rt: field_rt(word) as u8,
                rd: field_rd(word) as u8,
                sa: field_shamt(word) as u8,
            },
        ))
    } else if func == 0b000110 {
        Some(Instr::Srlv(
            SrlvInstr {
                rs: field_rs(word) as u8,
                rt: field_rt(word) as u8,
                rd: field_rd(word) as u8,
            },
        ))
    } else if func == 0b000011 {
        Some(Instr::Sra(
            SraInstr {
                rt: field_rt(word) as u8,
                rd: field_rd(word) as u8,
                sa: field_shamt(word) as u8,
            },
        ))
    } else if func == 0b000111 {
        Some(Instr::Srav(
            SravInstr {
                rs: field_rs(word) as u8,
                rt: field_rt(word) as u8,
                rd: field_rd(word) as u8,
            },
        ))
    } else if func == 0b100100 {
        Some(Instr::And(
            AndInstr {
                rs: field_rs(word) as u8,
                rt: field_rt(word) as u8,
                rd: field_rd(word) as u8,
            },
        ))
    } else if func == 0b100101 {
        Some(Instr::Or(
            OrInstr {
                rs: field_rs(word) as u8,
                rt: field_rt(word) as u8,
                rd: field_rd(word) as u8,
            },
        ))
    } else if func == 0b100110 {
        Some(Instr::Xor(
            XorInstr {
                rs: field_rs(word) as u8,
                rt: field_rt(word) as u8,
                rd: field_rd(word) as u8,
            },
        ))
    } else if func == 0b100111 {
        Some(Instr::Nor(
            NorInstr {
                rs: field_rs(word) as u8,
                rt: field_rt(word) as u8,
                rd: field_rd(word) as u8,
            },
        ))
    } else if func == 0b101010 {
        Some(Instr::Slt(
            SltInstr {
                rs: field_rs(word) as u8,
                rt: field_rt(word) as u8,
                rd: field_rd(word) as u8,
            },
        ))
    } else if func == 0b101011 {
        Some(Instr::Sltu(
            SltuInstr {
                rs: field_rs(word) as u8,
                rt: field_rt(word) as u8,
                rd: field_rd(word) as u8,
            },
        ))
    } else if func == 0b001000 {
        Some(Instr::Jr(JrInstr { rs: field_rs(word) as u8 }))
    } else if func == 0b001001 {
        Some(Instr::Jalr(
            JalrInstr {
                rs: field_rs(word) as u8,
                rd: field_rd(word) as u8,
            },
        ))
    } else if func == 0b011000 {
        Some(Instr::Mult(
            MultInstr {
                rs: field_rs(word) as u8,
                rt: field_rt(word) as u8,
            },
        ))
    } else if func == 0b011001 {
        Some(Instr::Multu(
            MultuInstr {
                rs: field_rs(word) as u8,
                rt: field_rt(word) as u8,
            },
        ))
    } else if func == 0b011010 {
        Some(Instr::Div(DivInstr { rs: field_rs(word) as u8, rt: field_rt(word) as u8 }))
    } else if func == 0b011011 {
        Some(Instr::Divu(
            DivuInstr {
                rs: field_rs(word) as u8,
                rt: field_rt(word) as u8,
            },
        ))
    } else if func == 0b010010 {
        Some(Instr::Mflo(MfloInstr { rd: field_rd(word) as u8 }))
    } else if func == 0b010000 {
        Some(Instr::Mfhi(MfhiInstr { rd: field_rd(word) as u8 }))
    } else if func == 0b010011 {
        Some(Instr::Mtlo(MtloInstr { rs: field_rs(word) as u8 }))
    } else if func == 0b010001 {
        Some(Instr::Mthi(MthiInstr { rs: field_rs(word) as u8 }))
    } else {
        None
    }
}

/// The instruction that a word stands for, if it is one of the catalog.
/// The all-zero word is `nop`.
pub open spec fn decode(word: u32) -> Option<Instr> {
    let op = field_op(word);
    if word == 0 {
        Some(Instr::Nop(NopInstr))
    } else if op == 0 {
        decode_register_type(word)
    } else if op == 0b001000 {
        Some(Instr::Addi(
            AddiInstr {
                rs: field_rs(word) as u8,
                rt: field_rt(word) as u8,
                imm: imm_value(field_imm(word)),
            },
        ))
    } else if op == 0b001001 {
        Some(Instr::Addiu(
            AddiuInstr {
                rs: field_rs(word) as u8,
                rt: field_rt(word) as u8,
                imm: imm_value(field_imm(word)),
            },
        ))
    } else if op == 0b001100 {
        Some(Instr::Andi(
            AndiInstr {
                rs: field_rs(word) as u8,
                rt: field_rt(word) as u8,
                imm: field_imm(word) as u16,
            },
        ))
    } else if op == 0b001101 {
        Some(Instr::Ori(
            OriInstr {
                rs: field_rs(word) as u8,
                rt: field_rt(word) as u8,
                imm: field_imm(word) as u16,
            },
        ))
    } else if op == 0b001110 {
        Some(Instr::Xori(
            XoriInstr {
                rs: field_rs(word) as u8,
                rt: field_rt(word) as u8,
                imm: field_imm(word) as u16,
            },
        ))
    } else if op == 0b001111 {
        Some(Instr::Lui(
            LuiInstr {
                rt: field_rt(word) as u8,
                imm: field_imm(word) as u16,
            },
        ))
    } else if op == 0b100000 {
        Some(Instr::Lb(
            LbInstr {
                base: field_rs(word) as u8,
                rt: field_rt(word) as u8,
                offset: imm_value(field_imm(word)),
            },
        ))
    } else if op == 0b100100 {
        Some(Instr::Lbu(
            LbuInstr {
                base: field_rs(word) as u8,
                rt: field_rt(word) as u8,
                offset: imm_value(field_imm(word)),
            },
        ))
    } else if op == 0b100001 {
        Some(Instr::Lh(
            LhInstr {
                base: field_rs(word) as u8,
                rt: field_rt(word) as u8,
                offset: imm_value(field_imm(word)),
            },
        ))
    } else if op == 0b100101 {
        Some(Instr::Lhu(
            LhuInstr {
                base: field_rs(word) as u8,
                rt: field_rt(word) as u8,
                offset: imm_value(field_imm(word)),
            },
        ))
    } else if op == 0b100011 {
        Some(Instr::Lw(
            LwInstr {
                base: field_rs(word) as u8,
                rt: field_rt(word) as u8,
                offset: imm_value(field_imm(word)),
            },
        ))
    } else if op == 0b101000 {
        Some(Instr::Sb(
            SbInstr {
                base: field_rs(word) as u8,
                rt: field_rt(word) as u8,
                offset: imm_value(field_imm(word)),
            },
        ))
    } else if op == 0b101001 {
        Some(Instr::Sh(
            ShInstr {
                base: field_rs(word) as u8,
                rt: field_rt(word) as u8,
                offset: imm_value(field_imm(word)),
            },
        ))
    } else if op == 0b101011 {
        Some(Instr::Sw(
            SwInstr {
                base: field_rs(word) as u8,
                rt: field_rt(word) as u8,
                offset: imm_value(field_imm(word)),
            },
        ))
    } else if op == 0b001010 {
        Some(Instr::Slti(
            SltiInstr {
                rs: field_rs(word) as u8,
                rt: field_rt(word) as u8,
                imm: imm_value(field_imm(word)),
            },
        ))
    } else if op == 0b001011 {
        Some(Instr::Sltiu(
            SltiuInstr {
                rs: field_rs(word) as u8,
                rt: field_rt(word) as u8,
                imm: imm_value(field_imm(word)),
            },
        ))
    } else if op == 0b000100 {
        Some(Instr::Beq(
            BeqInstr {
                rs: field_rs(word) as u8,
                rt: field_rt(word) as u8,
                offset: imm_value(field_imm(word)),
            },
        ))
    } else if op == 0b000101 {
        Some(Instr::Bne(
            BneInstr {
                rs: field_rs(word) as u8,
                rt: field_rt(word) as u8,
                offset: imm_value(field_imm(word)),
            },
        ))
    } else if op == 0b000110 {
        Some(Instr::Blez(
            BlezInstr {
                rs: field_rs(word) as u8,
                offset: imm_value(field_imm(word)),
            },
        ))
    } else if op == 0b000001 && field_rt(word) == 0 {
        Some(Instr::Bltz(
            BltzInstr {
                rs: field_rs(word) as u8,
                offset: imm_value(field_imm(word)),
            },
        ))
    } else if op == 0b000001 && field_rt(word) == 1 {
        Some(Instr::Bgez(
            BgezInstr {
                rs: field_rs(word) as u8,
                offset: imm_value(field_imm(word)),
            },
        ))
    } else if op == 0b000111 {
        Some(Instr::Bgtz(
            BgtzInstr {
                rs: field_rs(word) as u8,
                offset: imm_value(field_imm(word)),
            },
        ))
    } else if op == 0b000010 {
        Some(Instr::J(JInstr { addr: field_addr(word) as u32 }))
    } else if op == 0b000011 {
        Some(Instr::Jal(JalInstr { addr: field_addr(word) as u32 }))
    } else {
        None
    }
}

/// Encoding loses nothing: the word of a well-formed instruction decodes to
/// that instruction, operand for operand. The one exception is `sll $0, $0, 0`,
/// whose word is the all-zero word of `nop`.
pub proof fn lemma_decode_encoding(instr: Instr)
    requires
        instr.wf(),
        instr != Instr::Sll(SllInstr { rt: 0, rd: 0, sa: 0 }),
    ensures
        decode(instr.encoding()) == Some(instr),
{
    match instr {
        Instr::Nop(i) => {},
        Instr::Add(i) => {
            lemma_fields_of_encode_r(0, i.rs, i.rt, i.rd, 0, 0b100000);
        },
        Instr::Addi(i) => {
            lemma_fields_of_encode_i(0b001000, i.rs, i.rt, imm_bits(i.imm));
        },
        Instr::Addu(i) => {
            lemma_fields_of_encode_r(0, i.rs, i.rt, i.rd, 0, 0b100001);
        },
        Instr::Addiu(i) => {
            lemma_fields_of_encode_i(0b001001, i.rs, i.rt, imm_bits(i.imm));
        },
        Instr::Sub(i) => {
            lemma_fields_of_encode_r(0, i.rs, i.rt, i.rd, 0, 0b100010);
        },
        Instr::Subu(i) => {
            lemma_fields_of_encode_r(0, i.rs, i.rt, i.rd, 0, 0b100011);
        },
        Instr::Sll(i) => {
            lemma_fields_of_encode_r(0, 0, i.rt, i.rd, i.sa, 0b000000);
        },
        Instr::Sllv(i) => {
            lemma_fields_of_encode_r(0, i.rs, i.rt, i.rd, 0, 0b000100);
        },
        Instr::Srl(i) => {
            lemma_fields_of_encode_r(0, 0, i.rt, i.rd, i.sa, 0b000010);
        },
        Instr::Srlv(i) => {
            lemma_fields_of_encode_r(0, i.rs, i.rt, i.rd, 0, 0b000110);
        },
        Instr::Sra(i) => {
            lemma_fields_of_encode_r(0, 0, i.rt, i.rd, i.sa, 0b000011);
        },
        Instr::Srav(i) => {
            lemma_fields_of_encode_r(0, i.rs, i.rt, i.rd, 0, 0b000111);
        },
        Instr::And(i) => {
            lemma_fields_of_encode_r(0, i.rs, i.rt, i.rd, 0, 0b100100);
        },
        Instr::Andi(i) => {
            lemma_fields_of_encode_i(0b001100, i.rs, i.rt, i.imm);
        },
        Instr::Or(i) => {
            lemma_fields_of_encode_r(0, i.rs, i.rt, i.rd, 0, 0b100101);
        },
        Instr::Ori(i) => {
            lemma_fields_of_encode_i(0b001101, i.rs, i.rt, i.imm);
        },
        Instr::Xor(i) => {
            lemma_fields_of_encode_r(0, i.rs, i.rt, i.rd, 0, 0b100110);
        },
        Instr::Xori(i) => {
            lemma_fields_of_encode_i(0b001110, i.rs, i.rt, i.imm);
        },
        Instr::Nor(i) => {
            lemma_fields_of_encode_r(0, i.rs, i.rt, i.rd, 0, 0b100111);
        },
        Instr::Lui(i) => {
            lemma_fields_of_encode_i(0b001111, 0, i.rt, i.imm);
        },
        Instr::Lb(i) => {
            lemma_fields_of_encode_i(0b100000, i.base, i.rt, imm_bits(i.offset));
        },
        Instr::Lbu(i) => {
            lemma_fields_of_encode_i(0b100100, i.base, i.rt, imm_bits(i.offset));
        },
        Instr::Lh(i) => {
            lemma_fields_of_encode_i(0b100001, i.base, i.rt, imm_bits(i.offset));
        },
        Instr::Lhu(i) => {
            lemma_fields_of_encode_i(0b100101, i.base, i.rt, imm_bits(i.offset));
        },
        Instr::Lw(i) => {
            lemma_fields_of_encode_i(0b100011, i.base, i.rt, imm_bits(i.offset));
        },
        Instr::Sb(i) => {
            lemma_fields_of_encode_i(0b101000, i.base, i.rt, imm_bits(i.offset));
        },
        Instr::Sh(i) => {
            lemma_fields_of_encode_i(0b101001, i.base, i.rt, imm_bits(i.offset));
        },
        Instr::Sw(i) => {
            lemma_fields_of_encode_i(0b101011, i.base, i.rt, imm_bits(i.offset));
        },
        Instr::Slt(i) => {
            lemma_fields_of_encode_r(0, i.rs, i.rt, i.rd, 0, 0b101010);
        },
        Instr::Slti(i) => {
            lemma_fields_of_encode_i(0b001010, i.rs, i.rt, imm_bits(i.imm));
        },
        Instr::Sltu(i) => {
            lemma_fields_of_encode_r(0, i.rs, i.rt, i.rd, 0, 0b101011);
        },
        Instr::Sltiu(i) => {
            lemma_fields_of_encode_i(0b001011, i.rs, i.rt, imm_bits(i.imm));
        },
        Instr::Beq(i) => {
            lemma_fields_of_encode_i(0b000100, i.rs, i.rt, imm_bits(i.offset));
        },
        Instr::Bne(i) => {
            lemma_fields_of_encode_i(0b000101, i.rs, i.rt, imm_bits(i.offset));
        },
        Instr::Blez(i) => {
            lemma_fields_of_encode_i(0b000110, i.rs, 0, imm_bits(i.offset));
        },
        Instr::Bltz(i) => {
            lemma_fields_of_encode_i(0b000001, i.rs, 0, imm_bits(i.offset));
        },
        Instr::Bgez(i) => {
            lemma_fields_of_encode_i(0b000001, i.rs, 1, imm_bits(i.offset));
        },
        Instr::Bgtz(i) => {
            lemma_fields_of_encode_i(0b000111, i.rs, 0, imm_bits(i.offset));
        },
        Instr::J(i) => {
            lemma_fields_of_encode_j(0b000010, i.addr);
        },
        Instr::Jal(i) => {
            lemma_fields_of_encode_j(0b000011, i.addr);
        },
        Instr::Jr(i) => {
            lemma_fields_of_encode_r(0, i.rs, 0, 0, 0, 0b001000);
        },
        Instr::Jalr(i) => {
            lemma_fields_of_encode_r(0, i.rs, 0, i.rd, 0, 0b001001);
        },
        Instr::Mult(i) => {
            lemma_fields_of_encode_r(0, i.rs, i.rt, 0, 0, 0b011000);
        },
        Instr::Multu(i) => {
            lemma_fields_of_encode_r(0, i.rs, i.rt, 0, 0, 0b011001);
        },
        Instr::Div(i) => {
            lemma_fields_of_encode_r(0, i.rs, i.rt, 0, 0, 0b011010);
        },
        Instr::Divu(i) => {
            lemma_fields_of_encode_r(0, i.rs, i.rt, 0, 0, 0b011011);
        },
        Instr::Mflo(i) => {
            lemma_fields_of_encode_r(0, 0, 0, i.rd, 0, 0b010010);
        },
        Instr::Mfhi(i) => {
            lemma_fields_of_encode_r(0, 0, 0, i.rd, 0, 0b010000);
        },
        Instr::Mtlo(i) => {
            lemma_fields_of_encode_r(0, i.rs, 0, 0, 0, 0b010011);
        },
        Instr::Mthi(i) => {
            lemma_fields_of_encode_r(0, i.rs, 0, 0, 0, 0b010001);
        },
    }
}

/// A taken branch goes to the address that the instruction names, and only
/// a branch or jump asks anything of the program counter.
pub proof fn lemma_outcome_names_destination(instr: Instr, m: MachineModel)
    ensures
        instr.outcome(m) matches BranchResult::Taken(target) ==> instr.destination(m) == Some(
            target,
        ),
        !instr.is_branch() ==> instr.outcome(m) == BranchResult::NoBranch,
        instr.is_branch() <==> instr.destination(m) is Some,
        instr.is_branch() <==> instr.kind().is_branch(),
        instr.kind().is_memory() <==> instr.access(m) is Some,
{
}

/// What an instruction names and asks does not depend on the interrupt log.
pub proof fn lemma_interrupt_changes_no_operand(instr: Instr, m: MachineModel)
    ensures
        instr.destination(m.interrupt()) == instr.destination(m),
        instr.access(m.interrupt()) == instr.access(m),
        instr.outcome(m.interrupt()) == instr.outcome(m),
{
}

/// An instruction of the catalog keeps the machine well formed, and leaves
/// the program counter and the pending transfer to the machine.
pub proof fn lemma_apply_keeps_wf(instr: Instr, m: MachineModel)
    requires
        instr.wf(),
        m.wf(),
    ensures
        instr.apply(m).wf(),
        m.same_control(instr.apply(m)),
{
    reveal(<Instr as Instruction>::apply);
    m.lemma_unlogged_changes_keep_wf();
    match instr {
        Instr::Add(i) => {
            m.lemma_write_grf_keeps_wf(i.rd);
        },
        Instr::Addi(i) => {
            m.lemma_write_grf_keeps_wf(i.rt);
        },
        Instr::Addu(i) => {
            m.lemma_write_grf_keeps_wf(i.rd);
        },
        Instr::Addiu(i) => {
            m.lemma_write_grf_keeps_wf(i.rt);
        },
        Instr::Sub(i) => {
            m.lemma_write_grf_keeps_wf(i.rd);
        },
        Instr::Subu(i) => {
            m.lemma_write_grf_keeps_wf(i.rd);
        },
        Instr::Sll(i) => {
            m.lemma_write_grf_keeps_wf(i.rd);
        },
        Instr::Sllv(i) => {
            m.lemma_write_grf_keeps_wf(i.rd);
        },
        Instr::Srl(i) => {
            m.lemma_write_grf_keeps_wf(i.rd);
        },
        Instr::Srlv(i) => {
            m.lemma_write_grf_keeps_wf(i.rd);
        },
        Instr::Sra(i) => {
            m.lemma_write_grf_keeps_wf(i.rd);
        },
        Instr::Srav(i) => {
            m.lemma_write_grf_keeps_wf(i.rd);
        },
        Instr::And(i) => {
            m.lemma_write_grf_keeps_wf(i.rd);
        },
        Instr::Andi(i) => {
            m.lemma_write_grf_keeps_wf(i.rt);
        },
        Instr::Or(i) => {
            m.lemma_write_grf_keeps_wf(i.rd);
        },
        Instr::Ori(i) => {
            m.lemma_write_grf_keeps_wf(i.rt);
        },
        Instr::Xor(i) => {
            m.lemma_write_grf_keeps_wf(i.rd);
        },
        Instr::Xori(i) => {
            m.lemma_write_grf_keeps_wf(i.rt);
        },
        Instr::Nor(i) => {
            m.lemma_write_grf_keeps_wf(i.rd);
        },
        Instr::Lui(i) => {
            m.lemma_write_grf_keeps_wf(i.rt);
        },
        Instr::Lb(i) => {
            m.lemma_write_grf_keeps_wf(i.rt);
        },
        Instr::Lbu(i) => {
            m.lemma_write_grf_keeps_wf(i.rt);
        },
        Instr::Lh(i) => {
            m.lemma_write_grf_keeps_wf(i.rt);
        },
        Instr::Lhu(i) => {
            m.lemma_write_grf_keeps_wf(i.rt);
        },
        Instr::Lw(i) => {
            m.lemma_write_grf_keeps_wf(i.rt);
        },
        Instr::Sb(i) => {
            let addr = m.effective_address(i.base, i.offset);
            if m.in_memory(addr) {
                m.lemma_write_mem_keeps_wf((addr - addr % 4) as u32);
            }
        },
        Instr::Sh(i) => {
            let addr = m.effective_address(i.base, i.offset);
            if m.in_memory(addr) {
                m.lemma_write_mem_keeps_wf((addr - addr % 4) as u32);
            }
        },
        Instr::Sw(i) => {
            let addr = m.effective_address(i.base, i.offset);
            if m.in_memory(addr) {
                m.lemma_write_mem_keeps_wf((addr - addr % 4) as u32);
            }
        },
        Instr::Slt(i) => {
            m.lemma_write_grf_keeps_wf(i.rd);
        },
        Instr::Slti(i) => {
            m.lemma_write_grf_keeps_wf(i.rt);
        },
        Instr::Sltu(i) => {
            m.lemma_write_grf_keeps_wf(i.rd);
        },
        Instr::Sltiu(i) => {
            m.lemma_write_grf_keeps_wf(i.rt);
        },
        Instr::Jal(i) => {
            m.lemma_write_grf_keeps_wf(31);
        },
        Instr::Jalr(i) => {
            m.lemma_write_grf_keeps_wf(i.rd);
        },
        Instr::Mflo(i) => {
            m.lemma_write_grf_keeps_wf(i.rd);
        },
        Instr::Mfhi(i) => {
            m.lemma_write_grf_keeps_wf(i.rd);
        },
        _ => {},
    }
}

/// One step of the machine keeps it well formed, as configured and with
/// every log entry where it was.
pub proof fn lemma_step_keeps_wf(instr: Instr, m: MachineModel)
    requires
        instr.wf(),
        m.wf(),
    ensures
        m.step(&instr).wf(),
        m.extends_to(m.step(&instr)),
{
    lemma_apply_keeps_wf(instr, m);
    lemma_apply_keeps_wf(instr, instr.apply(m));
}

/// The machine after the instructions of `program` have been handed to it
/// one after the other.
pub open spec fn run(m: MachineModel, program: Seq<Instr>) -> MachineModel
    decreases program.len(),
{
    if program.len() == 0 {
        m
    } else {
        run(m, program.drop_last()).step(&program.last())
    }
}

/// No trace names register 0: whatever well-formed instructions a
/// well-formed machine is handed, no entry of its register log names
/// register 0, and what was logged before stays where it was.
pub proof fn lemma_no_trace_names_register_zero(m: MachineModel, program: Seq<Instr>)
    requires
        m.wf(),
        forall|i: int| 0 <= i < program.len() ==> (#[trigger] program[i]).wf(),
    ensures
        run(m, program).wf(),
        m.extends_to(run(m, program)),
        forall|i: int|
            0 <= i < run(m, program).grf_log.len() ==> (#[trigger] run(m, program).grf_log[i]).addr
                != 0,
    decreases program.len(),
{
    if program.len() > 0 {
        let before = run(m, program.drop_last());
        lemma_no_trace_names_register_zero(m, program.drop_last());
        lemma_step_keeps_wf(program.last(), before);
    }
}

/// An arithmetic instruction writes and asks the same of machines that agree.
proof fn lemma_arithmetic_agrees(instr: Instr, first: MachineModel, second: MachineModel)
    requires
        first.agrees_with(second),
        instr is Nop || instr is Add || instr is Addi || instr is Addu || instr is Addiu
            || instr is Sub || instr is Subu || instr is Lui || instr is Slt
            || instr is Slti || instr is Sltu || instr is Sltiu,
    ensures
        instr.apply(first).agrees_with(instr.apply(second)),
        instr.outcome(first) == instr.outcome(second),
{
    reveal(<Instr as Instruction>::apply);
    first.lemma_changes_agree(second);
}

/// A logic instruction writes and asks the same of machines that agree.
proof fn lemma_logic_agrees(instr: Instr, first: MachineModel, second: MachineModel)
    requires
        first.agrees_with(second),
        instr is And || instr is Andi || instr is Or || instr is Ori || instr is Xor
            || instr is Xori || instr is Nor,
    ensures
        instr.apply(first).agrees_with(instr.apply(second)),
        instr.outcome(first) == instr.outcome(second),
{
    reveal(<Instr as Instruction>::apply);
    first.lemma_changes_agree(second);
}

/// A shift writes and asks the same of machines that agree.
proof fn lemma_shift_agrees(instr: Instr, first: MachineModel, second: MachineModel)
    requires
        first.agrees_with(second),
        instr is Sll || instr is Sllv || instr is Srl || instr is Srlv || instr is Sra
            || instr is Srav,
    ensures
        instr.apply(first).agrees_with(instr.apply(second)),
        instr.outcome(first) == instr.outcome(second),
{
    reveal(<Instr as Instruction>::apply);
    first.lemma_changes_agree(second);
}

/// A load or store writes and asks the same of machines that agree.
proof fn lemma_memory_agrees(instr: Instr, first: MachineModel, second: MachineModel)
    requires
        first.agrees_with(second),
        instr is Lb || instr is Lbu || instr is Lh || instr is Lhu || instr is Lw
            || instr is Sb || instr is Sh || instr is Sw,
    ensures
        instr.apply(first).agrees_with(instr.apply(second)),
        instr.outcome(first) == instr.outcome(second),
{
    reveal(<Instr as Instruction>::apply);
    first.lemma_changes_agree(second);
}

/// A branch or jump writes and asks the same of machines that agree.
proof fn lemma_branch_agrees(instr: Instr, first: MachineModel, second: MachineModel)
    requires
        first.agrees_with(second),
        instr is Beq || instr is Bne || instr is Blez || instr is Bltz || instr is Bgez
            || instr is Bgtz || instr is J || instr is Jal || instr is Jr || instr is Jalr,
    ensures
        instr.apply(first).agrees_with(instr.apply(second)),
        instr.outcome(first) == instr.outcome(second),
{
    reveal(<Instr as Instruction>::apply);
    first.lemma_changes_agree(second);
}

/// A multiplication, a division or a move of HI or LO writes and asks the same of machines that agree.
proof fn lemma_multiply_divide_agrees(instr: Instr, first: MachineModel, second: MachineModel)
    requires
        first.agrees_with(second),
        instr is Mult || instr is Multu || instr is Div || instr is Divu
            || instr is Mflo || instr is Mfhi || instr is Mtlo || instr is Mthi,
    ensures
        instr.apply(first).agrees_with(instr.apply(second)),
        instr.outcome(first) == instr.outcome(second),
{
    reveal(<Instr as Instruction>::apply);
    first.lemma_changes_agree(second);
}

/// What an instruction writes and asks does not depend on the handling of
/// exceptions.
pub proof fn lemma_apply_agrees(instr: Instr, first: MachineModel, second: MachineModel)
    requires
        first.agrees_with(second),
    ensures
        instr.apply(first).agrees_with(instr.apply(second)),
        instr.outcome(first) == instr.outcome(second),
{
    match instr {
        Instr::Nop(_) => lemma_arithmetic_agrees(instr, first, second),
        Instr::Add(_) => lemma_arithmetic_agrees(instr, first, second),
        Instr::Addi(_) => lemma_arithmetic_agrees(instr, first, second),
        Instr::Addu(_) => lemma_arithmetic_agrees(instr, first, second),
        Instr::Addiu(_) => lemma_arithmetic_agrees(instr, first, second),
        Instr::Sub(_) => lemma_arithmetic_agrees(instr, first, second),
        Instr::Subu(_) => lemma_arithmetic_agrees(instr, first, second),
        Instr::Sll(_) => lemma_shift_agrees(instr, first, second),
        Instr::Sllv(_) => lemma_shift_agrees(instr, first, second),
        Instr::Srl(_) => lemma_shift_agrees(instr, first, second),
        Instr::Srlv(_) => lemma_shift_agrees(instr, first, second),
        Instr::Sra(_) => lemma_shift_agrees(instr, first, second),
        Instr::Srav(_) => lemma_shift_agrees(instr, first, second),
        Instr::And(_) => lemma_logic_agrees(instr, first, second),
        Instr::Andi(_) => lemma_logic_agrees(instr, first, second),
        Instr::Or(_) => lemma_logic_agrees(instr, first, second),
        Instr::Ori(_) => lemma_logic_agrees(instr, first, second),
        Instr::Xor(_) => lemma_logic_agrees(instr, first, second),
        Instr::Xori(_) => lemma_logic_agrees(instr, first, second),
        Instr::Nor(_) => lemma_logic_agrees(instr, first, second),
        Instr::Lui(_) => lemma_arithmetic_agrees(instr, first, second),
        Instr::Lb(_) => lemma_memory_agrees(instr, first, second),
        Instr::Lbu(_) => lemma_memory_agrees(instr, first, second),
        Instr::Lh(_) => lemma_memory_agrees(instr, first, second),
        Instr::Lhu(_) => lemma_memory_agrees(instr, first, second),
        Instr::Lw(_) => lemma_memory_agrees(instr, first, second),
        Instr::Sb(_) => lemma_memory_agrees(instr, first, second),
        Instr::Sh(_) => lemma_memory_agrees(instr, first, second),
        Instr::Sw(_) => lemma_memory_agrees(instr, first, second),
        Instr::Slt(_) => lemma_arithmetic_agrees(instr, first, second),
        Instr::Slti(_) => lemma_arithmetic_agrees(instr, first, second),
        Instr::Sltu(_) => lemma_arithmetic_agrees(instr, first, second),
        Instr::Sltiu(_) => lemma_arithmetic_agrees(instr, first, second),
        Instr::Beq(_) => lemma_branch_agrees(instr, first, second),
        Instr::Bne(_) => lemma_branch_agrees(instr, first, second),
        Instr::Blez(_) => lemma_branch_agrees(instr, first, second),
        Instr::Bltz(_) => lemma_branch_agrees(instr, first, second),
        Instr::Bgez(_) => lemma_branch_agrees(instr, first, second),
        Instr::Bgtz(_) => lemma_branch_agrees(instr, first, second),
        Instr::J(_) => lemma_branch_agrees(instr, first, second),
        Instr::Jal(_) => lemma_branch_agrees(instr, first, second),
        Instr::Jr(_) => lemma_branch_agrees(instr, first, second),
        Instr::Jalr(_) => lemma_branch_agrees(instr, first, second),
        Instr::Mult(_) => lemma_multiply_divide_agrees(instr, first, second),
        Instr::Multu(_) => lemma_multiply_divide_agrees(instr, first, second),
        Instr::Div(_) => lemma_multiply_divide_agrees(instr, first, second),
        Instr::Divu(_) => lemma_multiply_divide_agrees(instr, first, second),
        Instr::Mflo(_) => lemma_multiply_divide_agrees(instr, first, second),
        Instr::Mfhi(_) => lemma_multiply_divide_agrees(instr, first, second),
        Instr::Mtlo(_) => lemma_multiply_divide_agrees(instr, first, second),
        Instr::Mthi(_) => lemma_multiply_divide_agrees(instr, first, second),
    }
}
/// The same instruction, handed to two machines that agree on registers,
/// memory, control state and write logs, leaves them agreeing on all of
/// these: the entries that it appends to the logs are the same.
pub proof fn lemma_execution_agrees(instr: Instr, first: MachineModel, second: MachineModel)
    requires
        first.agrees_with(second),
    ensures
        first.step(&instr).agrees_with(second.step(&instr)),
{
    lemma_apply_agrees(instr, first, second);
    lemma_apply_agrees(instr, instr.apply(first), instr.apply(second));
}

/// Division by zero clears HI and LO and changes nothing else, so that a
/// following `mflo` or `mfhi` writes 0.
pub proof fn lemma_division_by_zero(m: MachineModel, rs: u8, rt: u8, rd: u8)
    requires
        m.grf[rt as int] == 0,
    ensures
        (DivInstr { rs, rt }).apply(m) == m.set_hi_lo(0, 0),
        (DivuInstr { rs, rt }).apply(m) == m.set_hi_lo(0, 0),
        (DivInstr { rs, rt }).outcome(m) == BranchResult::NoBranch,
        (DivuInstr { rs, rt }).outcome(m) == BranchResult::NoBranch,
        (MfloInstr { rd }).apply(m.set_hi_lo(0, 0)) == m.set_hi_lo(0, 0).write_grf(rd, 0),
        (MfhiInstr { rd }).apply(m.set_hi_lo(0, 0)) == m.set_hi_lo(0, 0).write_grf(rd, 0),
{
}

/// Division of zero leaves HI and LO zero, whatever the divisor, and
/// changes nothing else.
pub proof fn lemma_division_of_zero(m: MachineModel, rs: u8, rt: u8)
    requires
        m.grf[rs as int] == 0,
    ensures
        (DivInstr { rs, rt }).apply(m) == m.set_hi_lo(0, 0),
        (DivuInstr { rs, rt }).apply(m) == m.set_hi_lo(0, 0),
{
    let divisor = m.grf[rt as int];
    if divisor != 0 {
        let b = signed(divisor);
        lemma_div_of0(b);
        lemma_div_of0(-b);
        lemma_div_of0(divisor as int);
        if b > 0 {
            lemma_small_mod(0, b as nat);
        } else {
            lemma_small_mod(0, (-b) as nat);
        }
        lemma_small_mod(0, divisor as nat);
    }
}

} // verus!
