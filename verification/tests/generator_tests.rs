use co_tester::catalog::Instr;
use co_tester::gen::{
    align_down, choose_candidate, choose_mem_addr, reaching_registers, gen_branch_offset, choose_read_register, exact_offset, gen_jump_addr,
    jump_register_candidates, permitted_types, InstructionGenerator, InstructionType,
    MAX_INSTR_COUNT, TEXT_END_LIMIT, TRAILER_TARGET,
};
use co_tester::instr::arith::{LuiInstr, NopInstr};
use co_tester::instr::branch::JInstr;
use co_tester::instr::logic::OriInstr;
use co_tester::machine::{Instruction, MachineState, MipsMachine, TEXT_START_ADDR};
use rand::rngs::StdRng;
use rand::SeedableRng;

const ALL_TYPES: [InstructionType; 51] = [
    InstructionType::Nop,
    InstructionType::Add,
    InstructionType::Addi,
    InstructionType::Addu,
    InstructionType::Addiu,
    InstructionType::Sub,
    InstructionType::Subu,
    InstructionType::Sll,
    InstructionType::Sllv,
    InstructionType::Srl,
    InstructionType::Srlv,
    InstructionType::Sra,
    InstructionType::Srav,
    InstructionType::And,
    InstructionType::Andi,
    InstructionType::Or,
    InstructionType::Ori,
    InstructionType::Xor,
    InstructionType::Xori,
    InstructionType::Nor,
    InstructionType::Lui,
    InstructionType::Lb,
    InstructionType::Lbu,
    InstructionType::Lh,
    InstructionType::Lhu,
    InstructionType::Lw,
    InstructionType::Sb,
    InstructionType::Sh,
    InstructionType::Sw,
    InstructionType::Slt,
    InstructionType::Slti,
    InstructionType::Sltu,
    InstructionType::Sltiu,
    InstructionType::Beq,
    InstructionType::Bne,
    InstructionType::Blez,
    InstructionType::Bltz,
    InstructionType::Bgez,
    InstructionType::Bgtz,
    InstructionType::J,
    InstructionType::Jal,
    InstructionType::Jr,
    InstructionType::Jalr,
    InstructionType::Mult,
    InstructionType::Multu,
    InstructionType::Div,
    InstructionType::Divu,
    InstructionType::Mflo,
    InstructionType::Mfhi,
    InstructionType::Mtlo,
    InstructionType::Mthi,
];

/// A stand-in for the caller's branch-distance distribution: small numbers
/// of either sign, now and then a large one.
struct Draws(u32);

impl Draws {
    fn next(&mut self) -> i16 {
        self.0 = self.0.wrapping_mul(1_103_515_245).wrapping_add(12345);
        let value = (self.0 >> 16) as i16;
        if value % 13 == 0 {
            value
        } else {
            value % 12
        }
    }
}

/// The address that a branch or jump at `pc` names, given the registers
/// before it executes.
fn destination(instr: &Instr, pc: u32, grf: &[u32; 32]) -> Option<u32> {
    let branch = |offset: i16| Some((pc as i64 + 4 + 4 * offset as i64) as u32);
    match instr {
        Instr::Beq(i) => branch(i.offset),
        Instr::Bne(i) => branch(i.offset),
        Instr::Blez(i) => branch(i.offset),
        Instr::Bltz(i) => branch(i.offset),
        Instr::Bgez(i) => branch(i.offset),
        Instr::Bgtz(i) => branch(i.offset),
        Instr::J(i) => Some((pc & 0xf000_0000) | (i.addr << 2)),
        Instr::Jal(i) => Some((pc & 0xf000_0000) | (i.addr << 2)),
        Instr::Jr(i) => Some(grf[i.rs as usize]),
        Instr::Jalr(i) => Some(grf[i.rs as usize]),
        _ => None,
    }
}

/// The base, offset and width of a load or store.
fn access(instr: &Instr) -> Option<(u8, i16, u32)> {
    match instr {
        Instr::Lb(i) => Some((i.base, i.offset, 1)),
        Instr::Lbu(i) => Some((i.base, i.offset, 1)),
        Instr::Lh(i) => Some((i.base, i.offset, 2)),
        Instr::Lhu(i) => Some((i.base, i.offset, 2)),
        Instr::Lw(i) => Some((i.base, i.offset, 4)),
        Instr::Sb(i) => Some((i.base, i.offset, 1)),
        Instr::Sh(i) => Some((i.base, i.offset, 2)),
        Instr::Sw(i) => Some((i.base, i.offset, 4)),
        _ => None,
    }
}

/// The register fields of an instruction word.
fn register_fields(word: u32) -> [u32; 3] {
    [(word >> 21) & 31, (word >> 16) & 31, (word >> 11) & 31]
}

/// Generates one program and checks, before and after every instruction,
/// what holds of every program. Returns the instructions and the machine.
fn generate(
    delayed_branching: bool,
    exception_enabled: bool,
    mem_size: usize,
    set: &[InstructionType],
    count: u32,
    seed: u64,
) -> (Vec<Instr>, MipsMachine) {
    let machine = MipsMachine::new(delayed_branching, exception_enabled, mem_size);
    let mut generator =
        InstructionGenerator::new(machine, set, count, StdRng::seed_from_u64(seed));
    let limit = TEXT_START_ADDR + 4 * count;
    assert_eq!(generator.jump_limit(), limit);
    let mut draws = Draws(seed as u32);
    let mut program = Vec::new();
    loop {
        let pc = generator.machine().pc();
        let state = generator.machine().state();
        let grf = *generator.machine().grf();
        let instr = match generator.next(draws.next()) {
            Some(instr) => instr,
            None => break,
        };
        assert!(pc < limit);
        assert_eq!(pc, TEXT_START_ADDR + 4 * program.len() as u32);
        assert_eq!(generator.machine().pc(), pc + 4);
        assert!(set.contains(&instr.kind()), "{:?}", instr);
        if matches!(state, MachineState::InDelaySlot(_)) || pc + 4 == limit {
            assert!(!instr.kind().is_branch(), "{:?} at {:x} in state {:?}", instr, pc, state);
        }
        if let Some(target) = destination(&instr, pc, &grf) {
            assert!(instr.kind().is_branch());
            assert!(TEXT_START_ADDR <= target && target < limit, "{:?} at {:x}", instr, pc);
            assert!(pc < target);
            if !exception_enabled {
                assert_eq!(target % 4, 0);
            }
        } else {
            assert!(!instr.kind().is_branch());
        }
        if let Some((base, offset, width)) = access(&instr) {
            assert!(base < 32);
            if !exception_enabled {
                let addr = grf[base as usize].wrapping_add(offset as i32 as u32);
                assert!((addr as usize) < mem_size * 4, "{:?}", instr);
                assert_eq!(addr % width, 0, "{:?}", instr);
            }
        }
        if let Instr::Jalr(i) = instr {
            assert_ne!(i.rs, i.rd);
        }
        if let Instr::Sll(i) = instr {
            assert!(i.sa < 32);
        }
        let word = instr.to_machine_code();
        match instr {
            Instr::J(i) => assert!(i.addr < 1 << 26),
            Instr::Jal(i) => assert!(i.addr < 1 << 26),
            _ => assert!(register_fields(word).iter().all(|field| *field < 32)),
        }
        match generator.machine().state() {
            MachineState::Normal => {}
            MachineState::InDelaySlot(target) | MachineState::Branching(target) => {
                assert!(target <= limit);
                assert!(generator.machine().pc() < limit);
            }
        }
        program.push(instr);
    }
    assert_eq!(program.len() as u32, count);
    assert_eq!(generator.machine().pc(), limit);
    assert_eq!(generator.machine().state(), MachineState::Normal);
    assert_eq!(generator.next(0), None);
    assert_eq!(generator.machine().pc(), limit);
    let machine = generator.into_machine();
    assert!(machine.grf_log().iter().all(|entry| entry.addr() != 0 && entry.addr() < 32));
    assert!(machine
        .mem_log()
        .iter()
        .all(|entry| entry.addr() % 4 == 0 && (entry.addr() as usize) < mem_size * 4));
    assert_eq!(machine.grf()[0], 0);
    if !exception_enabled {
        assert!(machine.irq_log().is_empty());
    }
    (program, machine)
}

#[test]
fn programs_of_every_type_are_legal() {
    for seed in 0..40 {
        let (program, machine) = generate(true, false, 3072, &ALL_TYPES, 300, seed);
        assert_eq!(program.len(), 300);
        assert!(!machine.grf_log().is_empty());
    }
}

#[test]
fn programs_without_delayed_branching_are_legal() {
    for seed in 100..130 {
        generate(false, false, 64, &ALL_TYPES, 200, seed);
    }
}

#[test]
fn programs_with_exceptions_are_legal() {
    let mut interrupts = 0;
    for seed in 200..230 {
        let (_, machine) = generate(true, true, 64, &ALL_TYPES, 200, seed);
        interrupts += machine.irq_log().len();
        assert!(machine
            .irq_log()
            .iter()
            .all(|addr| addr % 4 == 0 && *addr >= TEXT_START_ADDR && *addr < TEXT_START_ADDR + 800));
    }
    assert!(interrupts > 0);
}

#[test]
fn large_memory_still_finds_a_base_register() {
    for seed in 300..310 {
        let set = [InstructionType::Lw, InstructionType::Sw, InstructionType::Sb, InstructionType::Lh];
        let (_, machine) = generate(true, false, 1 << 20, &set, 200, seed);
        assert!(!machine.mem_log().is_empty());
    }
}

#[test]
fn short_programs_end_cleanly() {
    for count in 0..6 {
        for seed in 0..20 {
            let set = [InstructionType::Beq, InstructionType::J, InstructionType::Jal, InstructionType::Nop];
            generate(true, false, 4, &set, count, seed);
            generate(false, false, 4, &set, count, seed);
        }
    }
}

#[test]
fn only_the_chosen_types_are_generated() {
    let (program, machine) = generate(true, false, 16, &[InstructionType::Nop], 50, 7);
    assert!(program.iter().all(|instr| *instr == Instr::Nop(NopInstr)));
    assert!(machine.grf_log().is_empty());
    let set = [InstructionType::Jr, InstructionType::Jalr, InstructionType::Lui];
    let (program, _) = generate(true, false, 16, &set, 100, 8);
    // No register holds an address of the program, so nothing jumps.
    assert!(program.iter().all(|instr| instr.kind() == InstructionType::Lui));
}

#[test]
fn jumps_through_registers_use_a_register_that_holds_a_target() {
    let mut jumps = 0;
    for seed in 0..20 {
        let mut machine = MipsMachine::new(true, false, 16);
        machine.execute(&OriInstr { rs: 0, rt: 9, imm: 0x3040 });
        machine.execute(&OriInstr { rs: 0, rt: 10, imm: 0x3042 });
        machine.execute(&LuiInstr { rt: 11, imm: 1 });
        let set = [InstructionType::Jr, InstructionType::Jalr, InstructionType::Nop];
        let mut generator =
            InstructionGenerator::new(machine, &set, 40, StdRng::seed_from_u64(seed));
        while let Some(instr) = {
            let pc = generator.machine().pc();
            let grf = *generator.machine().grf();
            generator.next(1).map(|instr| (instr, pc, grf))
        } {
            let (instr, pc, grf) = instr;
            let rs = match instr {
                Instr::Jr(i) => i.rs,
                Instr::Jalr(i) => i.rs,
                _ => continue,
            };
            jumps += 1;
            assert!(pc < grf[rs as usize] && grf[rs as usize] < 0x3000 + 160);
            assert_eq!(grf[rs as usize] % 4, 0);
            assert_ne!(rs, 10);
        }
        assert_eq!(generator.machine().state(), MachineState::Normal);
    }
    assert!(jumps > 0);
}

#[test]
fn the_generated_program_replays_to_the_same_logs() {
    for seed in 0..10 {
        for delayed_branching in [true, false] {
            let (program, machine) = generate(delayed_branching, false, 128, &ALL_TYPES, 250, seed);
            let mut replay = MipsMachine::new(delayed_branching, false, 128);
            for instr in &program {
                replay.execute(instr);
            }
            assert_eq!(replay.grf_log(), machine.grf_log());
            assert_eq!(replay.mem_log(), machine.mem_log());
            assert_eq!(replay.grf(), machine.grf());
            assert_eq!(replay.mem(), machine.mem());
            assert_eq!(replay.pc(), machine.pc());
        }
    }
}

#[test]
fn the_same_seed_gives_the_same_program() {
    let (first, _) = generate(true, true, 64, &ALL_TYPES, 200, 99);
    let (second, _) = generate(true, true, 64, &ALL_TYPES, 200, 99);
    assert_eq!(first, second);
    let (third, _) = generate(true, true, 64, &ALL_TYPES, 200, 98);
    assert_ne!(first, third);
}

#[test]
fn branch_offsets_are_clamped_to_the_program() {
    // Far from the end: the magnitude of the draw, and one more without exceptions.
    assert_eq!(gen_branch_offset(0x3000, 0x4000, false, 0), 1);
    assert_eq!(gen_branch_offset(0x3000, 0x4000, false, 5), 6);
    assert_eq!(gen_branch_offset(0x3000, 0x4000, false, -5), 6);
    assert_eq!(gen_branch_offset(0x3000, 0x4000, true, 0), 0);
    assert_eq!(gen_branch_offset(0x3000, 0x4000, true, -9), 9);
    // Near the end: the last instruction of the program, at 0x3ffc.
    assert_eq!(gen_branch_offset(0x3fe0, 0x4000, false, 5), 6);
    assert_eq!(gen_branch_offset(0x3fe0, 0x4000, false, 6), 6);
    assert_eq!(gen_branch_offset(0x3fe0, 0x4000, false, 7), 6);
    assert_eq!(gen_branch_offset(0x3fe0, 0x4000, false, i16::MIN), 6);
    assert_eq!(gen_branch_offset(0x3ff8, 0x4000, false, 3), 0);
    assert_eq!(gen_branch_offset(0x3ff8, 0x4000, true, 0), 0);
    assert_eq!(gen_branch_offset(0x3ff4, 0x4000, true, 1), 1);
    assert_eq!(gen_branch_offset(0x3ff4, 0x4000, true, 2), 1);
    // What sixteen bits hold.
    assert_eq!(gen_branch_offset(0x3000, TEXT_END_LIMIT, false, i16::MAX), i16::MAX);
    assert_eq!(gen_branch_offset(0x3000, TEXT_END_LIMIT, true, i16::MIN), i16::MAX);
    assert_eq!(gen_branch_offset(0x3000, TEXT_END_LIMIT, true, -i16::MAX), i16::MAX);
    assert_eq!(gen_branch_offset(0x3000, TEXT_END_LIMIT, false, 32766), i16::MAX);
    assert_eq!(gen_branch_offset(0x3000, 0x3000 + 4 * 32769, true, i16::MAX), i16::MAX);
    assert_eq!(gen_branch_offset(0x3000, 0x3000 + 4 * 32768, true, i16::MAX), 32766);
}

#[test]
fn jump_addresses_name_the_instruction_a_branch_would_reach() {
    assert_eq!(gen_jump_addr(0x3000, 0x4000, false, 0), 0xc02);
    assert_eq!(gen_jump_addr(0x3000, 0x4000, true, 0), 0xc01);
    assert_eq!(gen_jump_addr(0x3000, 0x4000, false, -4), 0xc06);
    assert_eq!(gen_jump_addr(0x3ff8, 0x4000, false, 100), 0xfff);
    assert_eq!(gen_jump_addr(0x3f00, 0x4000, false, 1000), 0xfff);
    assert_eq!(MAX_INSTR_COUNT, (TEXT_END_LIMIT - TEXT_START_ADDR) / 4);
}

#[test]
fn read_registers_prefer_the_last_written() {
    assert_eq!(choose_read_register(Some(7), None, true, 3), 7);
    assert_eq!(choose_read_register(Some(7), None, false, 3), 3);
    assert_eq!(choose_read_register(None, None, true, 3), 3);
    assert_eq!(choose_read_register(None, None, true, 31), 31);
    assert_eq!(choose_read_register(Some(7), Some(7), true, 3), 3);
    assert_eq!(choose_read_register(Some(7), Some(7), true, 7), 8);
    assert_eq!(choose_read_register(Some(7), Some(7), true, 6), 6);
    assert_eq!(choose_read_register(Some(7), Some(7), false, 30), 31);
    assert_eq!(choose_read_register(Some(7), Some(5), true, 5), 7);
    assert_eq!(choose_read_register(Some(7), Some(5), false, 5), 6);
    assert_eq!(choose_read_register(None, Some(0), true, 0), 1);
    assert_eq!(choose_read_register(None, Some(31), false, 30), 30);
}

#[test]
fn reaching_registers_are_those_within_an_offset() {
    let mut grf = [0u32; 32];
    assert_eq!(
        reaching_registers(&grf, 8),
        (0u8..32).map(|base| (base, 8i16)).collect::<Vec<_>>()
    );
    for value in grf.iter_mut() {
        *value = 0x4000_0000;
    }
    grf[0] = 0;
    grf[3] = 0x1_0000;
    grf[7] = 0x7ff1;
    grf[8] = 0x7ff0;
    grf[20] = 0x1_7ff0;
    grf[21] = 0x1_7ff1;
    grf[31] = 0xfff0;
    assert_eq!(
        reaching_registers(&grf, 0xfff0),
        vec![(3, -16), (7, 32767), (20, -32768), (31, 0)]
    );
    assert_eq!(reaching_registers(&grf, 0), vec![(0, 0), (7, -32753), (8, -32752)]);
    grf[0] = 0;
    assert_eq!(reaching_registers(&grf, 0x2000_0000), vec![]);
}

#[test]
fn candidates_prefer_the_register_written_last() {
    let candidates = vec![(3u8, -16i16), (7, 32767), (9, 0)];
    assert_eq!(choose_candidate(&candidates, Some(7), true, 0), (7, 32767));
    assert_eq!(choose_candidate(&candidates, Some(7), false, 0), (3, -16));
    assert_eq!(choose_candidate(&candidates, Some(7), false, 2), (9, 0));
    assert_eq!(choose_candidate(&candidates, Some(5), true, 2), (9, 0));
    assert_eq!(choose_candidate(&candidates, Some(9), true, 0), (9, 0));
    assert_eq!(choose_candidate(&candidates, None, true, 1), (7, 32767));
    assert_eq!(choose_candidate(&candidates, Some(3), true, 1), (3, -16));
}

#[test]
fn memory_addresses_prefer_the_last_written() {
    assert_eq!(choose_mem_addr(Some(0x40), true, 8), 0x40);
    assert_eq!(choose_mem_addr(Some(0x40), false, 8), 8);
    assert_eq!(choose_mem_addr(None, true, 8), 8);
    assert_eq!(choose_mem_addr(None, false, 0), 0);
    assert_eq!(choose_mem_addr(Some(0), true, 8), 0);
}

#[test]
fn offsets_reach_the_address_or_are_none() {
    assert_eq!(exact_offset(0, 0), Some(0));
    assert_eq!(exact_offset(0, 32767), Some(32767));
    assert_eq!(exact_offset(0, 32768), None);
    assert_eq!(exact_offset(32768, 0), Some(-32768));
    assert_eq!(exact_offset(32769, 0), None);
    assert_eq!(exact_offset(0x1000, 0xffc), Some(-4));
    assert_eq!(exact_offset(0xffff_ffff, 0), None);
    assert_eq!(exact_offset(0xffff_ffff, 0xffff_fff0), Some(-15));
    assert_eq!(align_down(0x1237, 1), 0x1237);
    assert_eq!(align_down(0x1237, 2), 0x1236);
    assert_eq!(align_down(0x1237, 4), 0x1234);
    assert_eq!(align_down(0, 4), 0);
}

#[test]
fn jump_register_candidates_hold_targets_ahead() {
    let mut grf = [0u32; 32];
    grf[1] = 0x3000; // the jump itself
    grf[2] = 0x3004;
    grf[3] = 0x3006; // not on a word boundary
    grf[4] = 0x3ffc;
    grf[5] = 0x4000; // the end of the program
    grf[31] = 0x3008;
    assert_eq!(jump_register_candidates(&grf, 0x3000, 0x4000, false), vec![2, 4, 31]);
    assert_eq!(jump_register_candidates(&grf, 0x3000, 0x4000, true), vec![2, 3, 4, 31]);
    assert_eq!(jump_register_candidates(&grf, 0x3004, 0x4000, false), vec![4, 31]);
    assert_eq!(jump_register_candidates(&grf, 0x3ffc, 0x4000, true), Vec::<u8>::new());
    assert_eq!(jump_register_candidates(&[0; 32], 0x3000, 0x4000, true), Vec::<u8>::new());
}

#[test]
fn permitted_types_leave_out_what_is_ruled_out() {
    let set = [
        InstructionType::Jr,
        InstructionType::Add,
        InstructionType::Beq,
        InstructionType::Add,
        InstructionType::Jalr,
        InstructionType::J,
        InstructionType::Sw,
    ];
    assert_eq!(
        permitted_types(&set, true, false),
        vec![InstructionType::Add, InstructionType::Add, InstructionType::Sw]
    );
    assert_eq!(
        permitted_types(&set, false, true),
        vec![
            InstructionType::Add,
            InstructionType::Beq,
            InstructionType::Add,
            InstructionType::J,
            InstructionType::Sw,
        ]
    );
    assert_eq!(permitted_types(&set, false, false), set.to_vec());
    assert_eq!(permitted_types(&set, true, true), permitted_types(&set, true, false));
    assert_eq!(permitted_types(&[], true, true), vec![]);
}

#[test]
fn the_trailer_jumps_out_of_the_program() {
    assert_eq!(
        InstructionGenerator::trailer(true),
        vec![Instr::J(JInstr { addr: 16384 }), Instr::Nop(NopInstr)]
    );
    assert_eq!(InstructionGenerator::trailer(false), vec![]);
    assert_eq!(TRAILER_TARGET, 16384);
    let texts: Vec<String> =
        InstructionGenerator::trailer(true).iter().map(|instr| instr.render_text()).collect();
    assert_eq!(texts, ["j 16384", "nop"]);
}
