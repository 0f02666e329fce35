use co_tester::instr::arith::{
    AddInstr, AddiInstr, AddiuInstr, AdduInstr, LuiInstr, NopInstr, SltInstr, SltiInstr,
    SltiuInstr, SltuInstr, SubInstr, SubuInstr,
};
use co_tester::instr::branch::{
    BeqInstr, BgezInstr, BgtzInstr, BlezInstr, BltzInstr, BneInstr, JInstr, JalInstr, JalrInstr,
    JrInstr,
};
use co_tester::instr::logic::{AndInstr, AndiInstr, NorInstr, OrInstr, OriInstr, XorInstr, XoriInstr};
use co_tester::instr::memory::{
    LbInstr, LbuInstr, LhInstr, LhuInstr, LwInstr, SbInstr, ShInstr, SwInstr,
};
use co_tester::instr::muldiv::{
    DivInstr, DivuInstr, MfhiInstr, MfloInstr, MthiInstr, MtloInstr, MultInstr, MultuInstr,
};
use co_tester::instr::shift::{SllInstr, SllvInstr, SraInstr, SravInstr, SrlInstr, SrlvInstr};
use co_tester::log::{GrfLogEntry, MemLogEntry};
use co_tester::machine::{
    calc_branch_addr, calc_jump_addr, BranchResult, Instruction, MachineState, MipsMachine,
    GRF_SIZE, TEXT_START_ADDR, WORD_SIZE,
};

/// Loads a 32-bit constant into a register with `lui` and `ori`.
fn load(machine: &mut MipsMachine, register: u8, value: u32) {
    machine.execute(&LuiInstr { rt: register, imm: (value >> 16) as u16 });
    machine.execute(&OriInstr { rs: register, rt: register, imm: value as u16 });
}

fn fresh() -> MipsMachine {
    MipsMachine::new(true, false, 16)
}

/// The word that the last logged register write wrote.
fn last_word(machine: &MipsMachine) -> u32 {
    machine.grf_log().last().unwrap().data()
}

#[test]
fn new_machine_is_at_rest() {
    let machine = MipsMachine::new(true, false, 8);
    assert_eq!(machine.pc(), TEXT_START_ADDR);
    assert_eq!(machine.pc(), 0x3000);
    assert_eq!(machine.state(), MachineState::Normal);
    assert_eq!(machine.grf(), &[0u32; GRF_SIZE]);
    assert_eq!(machine.mem(), &[0u32; 8]);
    assert!(machine.grf_log().is_empty());
    assert!(machine.mem_log().is_empty());
    assert!(machine.irq_log().is_empty());
    assert!(machine.delayed_branching());
    assert!(!machine.exception_enabled());
    assert_eq!(WORD_SIZE, 4);
    assert_eq!(GRF_SIZE, 32);
}

#[test]
fn store_of_a_built_constant_is_logged_in_order() {
    let mut machine = MipsMachine::new(true, false, 1);
    machine.execute(&AdduInstr { rs: 0, rt: 0, rd: 1 });
    machine.execute(&OriInstr { rs: 1, rt: 1, imm: 5 });
    machine.execute(&SwInstr { base: 0, rt: 1, offset: 0 });
    assert_eq!(
        machine.grf_log(),
        &[GrfLogEntry::new(0x3000, 1, 0), GrfLogEntry::new(0x3004, 1, 5)]
    );
    assert_eq!(machine.mem_log(), &[MemLogEntry::new(0x3008, 0, 5)]);
    assert_eq!(machine.grf_log()[1].render_text(), "@00003004: $ 1 <= 00000005");
    assert_eq!(machine.mem_log()[0].render_text(), "@00003008: *00000000 <= 00000005");
    assert_eq!(machine.mem()[0], 5);
    assert_eq!(machine.pc(), 0x300c);
}

#[test]
fn branch_to_its_own_delay_slot_runs_the_slot_twice() {
    let mut machine = MipsMachine::new(true, false, 1);
    machine.execute(&BeqInstr { rs: 0, rt: 0, offset: 0 });
    assert_eq!(machine.state(), MachineState::InDelaySlot(0x3004));
    machine.execute(&AdduInstr { rs: 0, rt: 0, rd: 2 });
    assert_eq!(
        machine.grf_log(),
        &[GrfLogEntry::new(0x3004, 2, 0), GrfLogEntry::new(0x3004, 2, 0)]
    );
    assert_eq!(machine.state(), MachineState::Normal);
    assert_eq!(machine.pc(), 0x3008);
}

#[test]
fn signed_overflow_writes_nothing() {
    let mut machine = fresh();
    load(&mut machine, 2, 0x7fff_ffff);
    load(&mut machine, 3, 1);
    let before = machine.grf_log().len();
    machine.execute(&AddInstr { rs: 2, rt: 3, rd: 1 });
    assert_eq!(machine.grf_log().len(), before);
    assert_eq!(machine.grf()[1], 0);
    machine.execute(&AddiInstr { rs: 2, rt: 1, imm: 1 });
    assert_eq!(machine.grf_log().len(), before);
    load(&mut machine, 4, 0x8000_0000);
    let before = machine.grf_log().len();
    machine.execute(&SubInstr { rs: 4, rt: 3, rd: 1 });
    assert_eq!(machine.grf_log().len(), before);
    machine.execute(&AddiInstr { rs: 4, rt: 1, imm: -1 });
    assert_eq!(machine.grf_log().len(), before);
    // The unsigned forms wrap instead.
    machine.execute(&AdduInstr { rs: 2, rt: 3, rd: 1 });
    assert_eq!(last_word(&machine), 0x8000_0000);
    machine.execute(&SubuInstr { rs: 4, rt: 3, rd: 1 });
    assert_eq!(last_word(&machine), 0x7fff_ffff);
    machine.execute(&AddiuInstr { rs: 2, rt: 1, imm: 1 });
    assert_eq!(last_word(&machine), 0x8000_0000);
    machine.execute(&AddiuInstr { rs: 0, rt: 1, imm: -1 });
    assert_eq!(last_word(&machine), 0xffff_ffff);
}

#[test]
fn division_by_zero_clears_hi_and_lo() {
    let mut machine = fresh();
    load(&mut machine, 1, 6);
    load(&mut machine, 3, 7);
    machine.execute(&MultInstr { rs: 1, rt: 3 });
    machine.execute(&MfloInstr { rd: 4 });
    assert_eq!(last_word(&machine), 42);
    machine.execute(&DivInstr { rs: 1, rt: 2 });
    machine.execute(&MfloInstr { rd: 4 });
    assert_eq!(last_word(&machine), 0);
    machine.execute(&MfhiInstr { rd: 5 });
    assert_eq!(last_word(&machine), 0);
    assert_eq!(machine.grf()[4], 0);
    machine.execute(&MultuInstr { rs: 1, rt: 3 });
    machine.execute(&DivuInstr { rs: 3, rt: 0 });
    machine.execute(&MfloInstr { rd: 4 });
    assert_eq!(last_word(&machine), 0);
    machine.execute(&MfhiInstr { rd: 4 });
    assert_eq!(last_word(&machine), 0);
}

#[test]
fn register_zero_is_never_written_nor_logged() {
    let mut machine = fresh();
    machine.execute(&OriInstr { rs: 0, rt: 0, imm: 77 });
    machine.execute(&LuiInstr { rt: 0, imm: 1 });
    machine.execute(&AddiuInstr { rs: 0, rt: 0, imm: 3 });
    machine.execute(&MfloInstr { rd: 0 });
    machine.execute(&JalrInstr { rs: 1, rd: 0 });
    assert!(machine.grf_log().is_empty());
    assert_eq!(machine.grf()[0], 0);
    assert_eq!(machine.pc(), 0x3014);
}

#[test]
fn signed_arithmetic_gives_exact_words() {
    let mut machine = fresh();
    load(&mut machine, 1, 0xffff_fffb); // -5
    load(&mut machine, 2, 3);
    machine.execute(&AddInstr { rs: 1, rt: 2, rd: 3 });
    assert_eq!(last_word(&machine), 0xffff_fffe);
    machine.execute(&SubInstr { rs: 1, rt: 2, rd: 3 });
    assert_eq!(last_word(&machine), 0xffff_fff8);
    machine.execute(&AddiInstr { rs: 1, rt: 3, imm: -32768 });
    assert_eq!(last_word(&machine), 0xffff_7ffb);
    machine.execute(&SltInstr { rs: 1, rt: 2, rd: 3 });
    assert_eq!(last_word(&machine), 1);
    machine.execute(&SltuInstr { rs: 1, rt: 2, rd: 3 });
    assert_eq!(last_word(&machine), 0);
    machine.execute(&SltiInstr { rs: 1, rt: 3, imm: -4 });
    assert_eq!(last_word(&machine), 1);
    machine.execute(&SltiInstr { rs: 2, rt: 3, imm: 3 });
    assert_eq!(last_word(&machine), 0);
    machine.execute(&SltiuInstr { rs: 2, rt: 3, imm: -1 });
    assert_eq!(last_word(&machine), 1);
    machine.execute(&SltiuInstr { rs: 1, rt: 3, imm: -6 });
    assert_eq!(last_word(&machine), 0);
    machine.execute(&LuiInstr { rt: 3, imm: 0xabcd });
    assert_eq!(last_word(&machine), 0xabcd_0000);
}

#[test]
fn logic_instructions_give_exact_words() {
    let mut machine = fresh();
    load(&mut machine, 1, 0xf0f0_1234);
    load(&mut machine, 2, 0x0ff0_00ff);
    machine.execute(&AndInstr { rs: 1, rt: 2, rd: 3 });
    assert_eq!(last_word(&machine), 0x00f0_0034);
    machine.execute(&OrInstr { rs: 1, rt: 2, rd: 3 });
    assert_eq!(last_word(&machine), 0xfff0_12ff);
    machine.execute(&XorInstr { rs: 1, rt: 2, rd: 3 });
    assert_eq!(last_word(&machine), 0xff00_12cb);
    machine.execute(&NorInstr { rs: 1, rt: 2, rd: 3 });
    assert_eq!(last_word(&machine), 0x000f_ed00);
    machine.execute(&AndiInstr { rs: 1, rt: 3, imm: 0xff00 });
    assert_eq!(last_word(&machine), 0x0000_1200);
    machine.execute(&OriInstr { rs: 1, rt: 3, imm: 0x8001 });
    assert_eq!(last_word(&machine), 0xf0f0_9235);
    machine.execute(&XoriInstr { rs: 1, rt: 3, imm: 0xffff });
    assert_eq!(last_word(&machine), 0xf0f0_edcb);
}

#[test]
fn shifts_give_exact_words() {
    let mut machine = fresh();
    load(&mut machine, 1, 0x8000_0010);
    load(&mut machine, 2, 36); // a register shift uses the low five bits: 4
    machine.execute(&SllInstr { rt: 1, rd: 3, sa: 4 });
    assert_eq!(last_word(&machine), 0x0000_0100);
    machine.execute(&SrlInstr { rt: 1, rd: 3, sa: 4 });
    assert_eq!(last_word(&machine), 0x0800_0001);
    machine.execute(&SraInstr { rt: 1, rd: 3, sa: 4 });
    assert_eq!(last_word(&machine), 0xf800_0001);
    machine.execute(&SraInstr { rt: 1, rd: 3, sa: 31 });
    assert_eq!(last_word(&machine), 0xffff_ffff);
    machine.execute(&SraInstr { rt: 2, rd: 3, sa: 2 });
    assert_eq!(last_word(&machine), 9);
    machine.execute(&SllvInstr { rs: 2, rt: 1, rd: 3 });
    assert_eq!(last_word(&machine), 0x0000_0100);
    machine.execute(&SrlvInstr { rs: 2, rt: 1, rd: 3 });
    assert_eq!(last_word(&machine), 0x0800_0001);
    machine.execute(&SravInstr { rs: 2, rt: 1, rd: 3 });
    assert_eq!(last_word(&machine), 0xf800_0001);
    machine.execute(&SllInstr { rt: 1, rd: 3, sa: 0 });
    assert_eq!(last_word(&machine), 0x8000_0010);
}

#[test]
fn multiplication_and_division_fill_hi_and_lo() {
    let mut machine = fresh();
    load(&mut machine, 1, 0xffff_ffff); // -1
    load(&mut machine, 2, 2);
    load(&mut machine, 3, 0xffff_fff9); // -7
    let read = |machine: &mut MipsMachine| {
        machine.execute(&MfhiInstr { rd: 10 });
        let hi = machine.grf()[10];
        machine.execute(&MfloInstr { rd: 11 });
        (hi, machine.grf()[11])
    };
    machine.execute(&MultInstr { rs: 1, rt: 2 });
    assert_eq!(read(&mut machine), (0xffff_ffff, 0xffff_fffe));
    machine.execute(&MultInstr { rs: 1, rt: 1 });
    assert_eq!(read(&mut machine), (0, 1));
    machine.execute(&MultuInstr { rs: 1, rt: 1 });
    assert_eq!(read(&mut machine), (0xffff_fffe, 0x0000_0001));
    machine.execute(&MultuInstr { rs: 1, rt: 2 });
    assert_eq!(read(&mut machine), (1, 0xffff_fffe));
    machine.execute(&DivInstr { rs: 3, rt: 2 });
    assert_eq!(read(&mut machine), (0xffff_ffff, 0xffff_fffd));
    load(&mut machine, 4, 7);
    load(&mut machine, 5, 0xffff_fffe); // -2
    machine.execute(&DivInstr { rs: 4, rt: 5 });
    assert_eq!(read(&mut machine), (1, 0xffff_fffd));
    machine.execute(&DivInstr { rs: 3, rt: 5 });
    assert_eq!(read(&mut machine), (0xffff_ffff, 3));
    machine.execute(&DivuInstr { rs: 3, rt: 2 });
    assert_eq!(read(&mut machine), (1, 0x7fff_fffc));
    load(&mut machine, 6, 0x8000_0000);
    machine.execute(&DivInstr { rs: 6, rt: 1 });
    assert_eq!(read(&mut machine), (0, 0x8000_0000));
    machine.execute(&MtloInstr { rs: 2 });
    machine.execute(&MthiInstr { rs: 4 });
    assert_eq!(read(&mut machine), (7, 2));
}

#[test]
fn hi_and_lo_are_never_logged() {
    let mut machine = fresh();
    load(&mut machine, 1, 9);
    let entries = machine.grf_log().len();
    machine.execute(&MultInstr { rs: 1, rt: 1 });
    machine.execute(&DivuInstr { rs: 1, rt: 1 });
    machine.execute(&MtloInstr { rs: 1 });
    machine.execute(&MthiInstr { rs: 1 });
    assert_eq!(machine.grf_log().len(), entries);
    assert!(machine.mem_log().is_empty());
}

#[test]
fn bytes_and_halves_go_to_their_lanes() {
    let mut machine = fresh();
    load(&mut machine, 1, 0x1234_5680);
    load(&mut machine, 2, 8);
    machine.execute(&SbInstr { base: 2, rt: 1, offset: 1 });
    assert_eq!(*machine.mem_log().last().unwrap(), MemLogEntry::new(0x3010, 8, 0x0000_8000));
    machine.execute(&LbInstr { base: 2, rt: 3, offset: 1 });
    assert_eq!(last_word(&machine), 0xffff_ff80);
    machine.execute(&LbuInstr { base: 2, rt: 3, offset: 1 });
    assert_eq!(last_word(&machine), 0x80);
    machine.execute(&LbuInstr { base: 2, rt: 3, offset: 0 });
    assert_eq!(last_word(&machine), 0);
    load(&mut machine, 4, 0xffff_9abc);
    machine.execute(&ShInstr { base: 2, rt: 4, offset: 2 });
    assert_eq!(machine.mem_log().last().unwrap().addr(), 8);
    assert_eq!(machine.mem()[2], 0x9abc_8000);
    machine.execute(&LhInstr { base: 2, rt: 3, offset: 2 });
    assert_eq!(last_word(&machine), 0xffff_9abc);
    machine.execute(&LhuInstr { base: 2, rt: 3, offset: 2 });
    assert_eq!(last_word(&machine), 0x9abc);
    machine.execute(&LhInstr { base: 2, rt: 3, offset: 0 });
    assert_eq!(last_word(&machine), 0xffff_8000);
    machine.execute(&LwInstr { base: 2, rt: 3, offset: 0 });
    assert_eq!(last_word(&machine), 0x9abc_8000);
    machine.execute(&SwInstr { base: 2, rt: 1, offset: -8 });
    assert_eq!(machine.mem()[0], 0x1234_5680);
    machine.execute(&SbInstr { base: 0, rt: 4, offset: 3 });
    assert_eq!(machine.mem()[0], 0xbc34_5680);
    machine.execute(&SbInstr { base: 0, rt: 4, offset: 0 });
    assert_eq!(machine.mem()[0], 0xbc34_56bc);
}

#[test]
fn misaligned_or_outside_access_writes_nothing() {
    let mut machine = MipsMachine::new(true, false, 4);
    load(&mut machine, 1, 0xdead_beef);
    let grf_entries = machine.grf_log().len();
    machine.execute(&SwInstr { base: 0, rt: 1, offset: 2 });
    machine.execute(&ShInstr { base: 0, rt: 1, offset: 1 });
    machine.execute(&LwInstr { base: 0, rt: 2, offset: 1 });
    machine.execute(&LhInstr { base: 0, rt: 2, offset: 3 });
    machine.execute(&LhuInstr { base: 0, rt: 2, offset: 1 });
    machine.execute(&SwInstr { base: 0, rt: 1, offset: 16 });
    machine.execute(&SbInstr { base: 0, rt: 1, offset: -1 });
    machine.execute(&LbInstr { base: 0, rt: 2, offset: 16 });
    machine.execute(&LbuInstr { base: 1, rt: 2, offset: 0 });
    assert!(machine.mem_log().is_empty());
    assert_eq!(machine.grf_log().len(), grf_entries);
    assert_eq!(machine.mem(), &[0u32; 4]);
    assert!(machine.irq_log().is_empty());
    machine.execute(&SwInstr { base: 0, rt: 1, offset: 12 });
    assert_eq!(machine.mem()[3], 0xdead_beef);
}

#[test]
fn faults_are_flagged_where_exceptions_are_enabled() {
    let mut machine = MipsMachine::new(true, true, 4);
    machine.execute(&OriInstr { rs: 0, rt: 1, imm: 9 });
    machine.execute(&SwInstr { base: 0, rt: 1, offset: 2 });
    machine.execute(&LwInstr { base: 0, rt: 2, offset: 64 });
    machine.execute(&SwInstr { base: 0, rt: 1, offset: 4 });
    assert_eq!(machine.irq_log(), &[0x3004, 0x3008]);
    assert_eq!(machine.mem_log(), &[MemLogEntry::new(0x300c, 4, 9)]);
    machine.interrupt();
    assert_eq!(machine.irq_log(), &[0x3004, 0x3008, 0x3010]);
    assert_eq!(machine.pc(), 0x3010);
    assert!(machine.exception_enabled());
}

#[test]
fn branches_decide_on_their_conditions() {
    let mut machine = fresh();
    load(&mut machine, 1, 0xffff_ffff);
    load(&mut machine, 2, 1);
    let pc = machine.pc();
    let taken = BranchResult::Taken(pc + 4 + 4 * 3);
    assert_eq!(BeqInstr { rs: 1, rt: 1, offset: 3 }.execute_on(&mut machine), taken);
    assert_eq!(BeqInstr { rs: 1, rt: 2, offset: 3 }.execute_on(&mut machine), BranchResult::NotTaken);
    assert_eq!(BneInstr { rs: 1, rt: 2, offset: 3 }.execute_on(&mut machine), taken);
    assert_eq!(BneInstr { rs: 2, rt: 2, offset: 3 }.execute_on(&mut machine), BranchResult::NotTaken);
    assert_eq!(BlezInstr { rs: 1, offset: 3 }.execute_on(&mut machine), taken);
    assert_eq!(BlezInstr { rs: 0, offset: 3 }.execute_on(&mut machine), taken);
    assert_eq!(BlezInstr { rs: 2, offset: 3 }.execute_on(&mut machine), BranchResult::NotTaken);
    assert_eq!(BltzInstr { rs: 1, offset: 3 }.execute_on(&mut machine), taken);
    assert_eq!(BltzInstr { rs: 0, offset: 3 }.execute_on(&mut machine), BranchResult::NotTaken);
    assert_eq!(BgezInstr { rs: 0, offset: 3 }.execute_on(&mut machine), taken);
    assert_eq!(BgezInstr { rs: 1, offset: 3 }.execute_on(&mut machine), BranchResult::NotTaken);
    assert_eq!(BgtzInstr { rs: 2, offset: 3 }.execute_on(&mut machine), taken);
    assert_eq!(BgtzInstr { rs: 0, offset: 3 }.execute_on(&mut machine), BranchResult::NotTaken);
    assert_eq!(NopInstr.execute_on(&mut machine), BranchResult::NoBranch);
    assert_eq!(machine.pc(), pc);
}

#[test]
fn branch_and_jump_addresses_are_exact() {
    assert_eq!(calc_branch_addr(0x3000, 0), 0x3004);
    assert_eq!(calc_branch_addr(0x3000, 7), 0x3020);
    assert_eq!(calc_branch_addr(0x3000, -1), 0x3000);
    assert_eq!(calc_branch_addr(0x3010, -5), 0x3000);
    assert_eq!(calc_branch_addr(0, -2), 0xffff_fffc);
    assert_eq!(calc_branch_addr(0xffff_fffc, 0), 0);
    assert_eq!(calc_jump_addr(0x3000, 0xc00), 0x3000);
    assert_eq!(calc_jump_addr(0x3000, 16384), 0x1_0000);
    assert_eq!(calc_jump_addr(0x9000_3000, 0xc04), 0x9000_3010);
    assert_eq!(calc_jump_addr(0xffff_fffc, 0x3ff_ffff), 0xffff_fffc);
}

#[test]
fn jumps_link_and_transfer() {
    let mut machine = fresh();
    machine.execute(&JalInstr { addr: 0xc04 });
    assert_eq!(machine.grf_log(), &[GrfLogEntry::new(0x3000, 31, 0x3008)]);
    assert_eq!(machine.state(), MachineState::InDelaySlot(0x3010));
    machine.execute(&NopInstr);
    assert_eq!(machine.state(), MachineState::Branching(0x3010));
    machine.execute(&OriInstr { rs: 0, rt: 5, imm: 1 });
    assert_eq!(machine.state(), MachineState::Branching(0x3010));
    machine.execute(&OriInstr { rs: 0, rt: 5, imm: 2 });
    assert_eq!(machine.state(), MachineState::Normal);
    assert_eq!(machine.grf()[5], 0);
    assert_eq!(machine.pc(), 0x3010);
    load(&mut machine, 6, 0x3020);
    machine.execute(&JalrInstr { rs: 6, rd: 7 });
    assert_eq!(*machine.grf_log().last().unwrap(), GrfLogEntry::new(0x3018, 7, 0x3020));
    assert_eq!(machine.state(), MachineState::InDelaySlot(0x3020));
    machine.execute(&OriInstr { rs: 0, rt: 5, imm: 3 });
    assert_eq!(machine.grf()[5], 3);
    assert_eq!(machine.state(), MachineState::Normal);
    assert_eq!(machine.pc(), 0x3020);
    assert_eq!(JrInstr { rs: 6 }.execute_on(&mut machine), BranchResult::Taken(0x3020));
    assert_eq!(JInstr { addr: 0xc10 }.execute_on(&mut machine), BranchResult::Taken(0x3040));
}

#[test]
fn not_taken_branch_still_opens_a_delay_slot() {
    let mut machine = fresh();
    machine.execute(&BneInstr { rs: 0, rt: 0, offset: 5 });
    assert_eq!(machine.state(), MachineState::InDelaySlot(0x3008));
    machine.execute(&OriInstr { rs: 0, rt: 1, imm: 4 });
    assert_eq!(machine.state(), MachineState::Normal);
    assert_eq!(machine.grf_log(), &[GrfLogEntry::new(0x3004, 1, 4)]);
}

#[test]
fn without_delayed_branching_the_skipped_instructions_do_nothing() {
    let mut machine = MipsMachine::new(false, false, 4);
    machine.execute(&BeqInstr { rs: 0, rt: 0, offset: 2 });
    assert_eq!(machine.state(), MachineState::Branching(0x300c));
    machine.execute(&OriInstr { rs: 0, rt: 1, imm: 1 });
    assert_eq!(machine.state(), MachineState::Branching(0x300c));
    machine.execute(&OriInstr { rs: 0, rt: 1, imm: 2 });
    assert_eq!(machine.state(), MachineState::Normal);
    machine.execute(&OriInstr { rs: 0, rt: 1, imm: 3 });
    assert_eq!(machine.grf_log(), &[GrfLogEntry::new(0x300c, 1, 3)]);
    // A branch to the next instruction resolves at once.
    machine.execute(&BeqInstr { rs: 0, rt: 0, offset: 0 });
    assert_eq!(machine.state(), MachineState::Normal);
    assert_eq!(machine.pc(), 0x3014);
}

#[test]
fn same_program_gives_same_state_and_logs() {
    let run = || {
        let mut machine = MipsMachine::new(true, true, 8);
        load(&mut machine, 1, 0x1234_5678);
        machine.execute(&SwInstr { base: 0, rt: 1, offset: 4 });
        machine.execute(&LhInstr { base: 0, rt: 2, offset: 5 });
        machine.execute(&MultInstr { rs: 1, rt: 1 });
        machine.execute(&MfhiInstr { rd: 3 });
        machine.execute(&BeqInstr { rs: 0, rt: 0, offset: 1 });
        machine.execute(&SubInstr { rs: 0, rt: 1, rd: 4 });
        machine
    };
    let first = run();
    let second = run();
    assert_eq!(first.pc(), second.pc());
    assert_eq!(first.state(), second.state());
    assert_eq!(first.grf(), second.grf());
    assert_eq!(first.mem(), second.mem());
    assert_eq!(first.grf_log(), second.grf_log());
    assert_eq!(first.mem_log(), second.mem_log());
    assert_eq!(first.irq_log(), second.irq_log());
    assert_eq!(first.grf_log().len(), 4);
    assert_eq!(first.irq_log(), &[0x300c]);
}
