use rs6502::assembler::assemble;
use rs6502::m6502::{
    add_with_carry, half_step, run_cycle, set_flags, step, subtract_with_borrow, Registers, State,
    TimingState, CARRY, NEGATIVE, OVERFLOW, ZERO,
};
use rs6502::memory::{DefaultMemory, Memory};

/// Memory with the reset vector at `start` and `program` loaded there.
fn machine(start: u16, program: &[u8]) -> (State, DefaultMemory) {
    let mut mem = DefaultMemory::new();
    mem.write(0xFFFC, (start & 0xFF) as u8);
    mem.write(0xFFFD, (start >> 8) as u8);
    for (i, b) in program.iter().enumerate() {
        mem.write(start + i as u16, *b);
    }
    (State::new(), mem)
}

/// Holds reset for one full cycle, then lets it go.
fn reset(state: &mut State) {
    state.res = true;
    step(state);
    step(state);
    state.res = false;
}

/// Runs cycles up to and including the next opcode fetch; returns how many.
fn run_until_fetch(state: &mut State, mem: &mut DefaultMemory) -> u32 {
    let mut n = 0;
    loop {
        run_cycle(state, mem);
        n += 1;
        if state.sync || n > 20 {
            return n;
        }
    }
}

/// Resets and runs to the first opcode fetch.
fn boot(start: u16, program: &[u8]) -> (State, DefaultMemory) {
    let (mut state, mut mem) = machine(start, program);
    reset(&mut state);
    assert_eq!(run_until_fetch(&mut state, &mut mem), 7);
    (state, mem)
}

#[test]
fn reset_then_fetch() {
    let (mut state, mut mem) = machine(0x0600, &[0xEA]);
    reset(&mut state);
    for _ in 0..7 {
        run_cycle(&mut state, &mut mem);
    }
    assert_eq!(state.registers.pc, 0x0600);
    assert_eq!(state.total_cycles, 7);
    assert!(state.sync);
    assert_eq!(state.ab, 0x0600);
    assert_eq!(state.registers.sp, 0xFD);
    for _ in 0..2 {
        run_cycle(&mut state, &mut mem);
    }
    assert_eq!(state.registers.pc, 0x0601);
    assert!(state.sync);
    assert_eq!(state.ab, 0x0601);
}

#[test]
fn reset_stalls_while_held() {
    let (mut state, _mem) = machine(0x0600, &[0xEA]);
    state.registers.sp = 0x42;
    state.pd = 0x99;
    state.res = true;
    for _ in 0..6 {
        step(&mut state);
    }
    assert!(state.next_timing.t2);
    assert_eq!(state.total_cycles, 0);
    assert_eq!(state.ir, 0);
    assert_eq!(state.registers.sp, 0x42);
    assert_eq!(state.pd, 0x99);
}

#[test]
fn immediate_adc_with_carry_clear() {
    let (mut state, mut mem) = boot(0x0600, &[0x69, 0x25, 0xEA]);
    state.registers.ac = 0x10;
    state.registers.sr = set_flags(state.registers.sr, CARRY, false);
    assert_eq!(run_until_fetch(&mut state, &mut mem), 2);
    assert_eq!(state.registers.ac, 0x35);
    assert!(!state.registers.status_has(CARRY));
    assert!(!state.registers.status_has(ZERO));
    assert!(!state.registers.status_has(NEGATIVE));
    assert_eq!(state.registers.pc, 0x0602);
}

#[test]
fn zero_page_store_writes_on_third_cycle() {
    let (mut state, mut mem) = boot(0x0600, &[0x85, 0x40, 0xEA]);
    state.registers.ac = 0xAB;
    run_cycle(&mut state, &mut mem);
    assert!(state.rw);
    run_cycle(&mut state, &mut mem);
    assert!(!state.rw);
    assert_eq!(state.ab, 0x0040);
    assert_eq!(state.db, 0xAB);
    run_cycle(&mut state, &mut mem);
    assert!(state.sync);
    assert_eq!(mem.read(0x0040), 0xAB);
    assert_eq!(state.registers.pc, 0x0602);
}

#[test]
fn taken_branch_across_a_page() {
    let (mut state, mut mem) = boot(0x06FC, &[0xA9, 0x01, 0xD0, 0x04]);
    assert_eq!(run_until_fetch(&mut state, &mut mem), 2);
    assert_eq!(state.registers.pc, 0x06FE);
    assert!(!state.registers.status_has(ZERO));
    assert_eq!(run_until_fetch(&mut state, &mut mem), 4);
    assert_eq!(state.registers.pc, 0x0704);
}

#[test]
fn taken_branch_within_a_page() {
    let (mut state, mut mem) = boot(0x0600, &[0xA9, 0x00, 0xF0, 0x02]);
    run_until_fetch(&mut state, &mut mem);
    assert_eq!(run_until_fetch(&mut state, &mut mem), 3);
    assert_eq!(state.registers.pc, 0x0606);
}

#[test]
fn branch_not_taken() {
    let (mut state, mut mem) = boot(0x0600, &[0xA9, 0x01, 0xF0, 0x10]);
    run_until_fetch(&mut state, &mut mem);
    assert_eq!(run_until_fetch(&mut state, &mut mem), 2);
    assert_eq!(state.registers.pc, 0x0604);
}

#[test]
fn indirect_jump() {
    let (mut state, mut mem) = boot(0x0600, &[0x6C, 0x00, 0x10]);
    mem.write(0x1000, 0x34);
    mem.write(0x1001, 0x12);
    assert_eq!(run_until_fetch(&mut state, &mut mem), 5);
    assert_eq!(state.registers.pc, 0x1234);
    assert_eq!(state.ab, 0x1234);
}

#[test]
fn lda_then_adc_sums_modulo_256() {
    let pairs = [
        (0u8, 0u8),
        (0x10, 0x25),
        (0x7F, 0x01),
        (0x80, 0x80),
        (0xFF, 0x01),
        (0xFF, 0xFF),
        (0x01, 0xFE),
        (0xC3, 0x5A),
        (0x33, 0xCC),
        (0x90, 0x71),
    ];
    for (n, m) in pairs.iter() {
        let (mut state, mut mem) = boot(0x0600, &[0xA9, *n, 0x18, 0x69, *m, 0xEA]);
        for _ in 0..3 {
            run_until_fetch(&mut state, &mut mem);
        }
        let sum = *n as u16 + *m as u16;
        assert_eq!(state.registers.ac, (sum & 0xFF) as u8, "{} + {}", n, m);
        assert_eq!(state.registers.status_has(CARRY), sum > 0xFF, "{} + {}", n, m);
        assert_eq!(state.registers.status_has(ZERO), sum & 0xFF == 0);
    }
}

#[test]
fn straight_line_block_advances_pc_by_sizes() {
    let src = "LDA #$01\nSTA $0200\nLDX $10\nINX\nNOP\nADC $1234,X\nLDY #2\nSTA ($20),Y\nASL\nTAX\nEOR $30,X";
    let image = assemble(&src.lines().map(|l| l.to_string()).collect()).unwrap();
    let sizes = [2u16, 3, 2, 1, 1, 3, 2, 2, 1, 1, 2];
    let mut program = Vec::new();
    for (_, b) in image.iter() {
        program.push(*b);
    }
    let (mut state, mut mem) = boot(0x0600, &program);
    let mut expected = 0x0600u16;
    for size in sizes.iter() {
        run_until_fetch(&mut state, &mut mem);
        expected += size;
        assert_eq!(state.registers.pc, expected);
    }
}

#[test]
fn assembled_program_runs() {
    let src = "LDX #$03\nloop: DEX\nBNE loop\nLDA #$42\nSTA $0300\nJMP $0700";
    let image = assemble(&src.lines().map(|l| l.to_string()).collect()).unwrap();
    let (mut state, mut mem) = machine(0x0600, &[]);
    for (a, b) in image.iter() {
        mem.set(*a, *b);
    }
    reset(&mut state);
    for _ in 0..200 {
        run_cycle(&mut state, &mut mem);
        if state.registers.pc == 0x0700 {
            break;
        }
    }
    assert_eq!(state.registers.pc, 0x0700);
    assert_eq!(state.registers.xr, 0);
    assert_eq!(mem.get(0x0300), 0x42);
}

#[test]
fn subroutine_call_and_return() {
    let src = "JSR sub\nLDX #$07\nJMP $0700\nsub: LDA #$55\nRTS";
    let image = assemble(&src.lines().map(|l| l.to_string()).collect()).unwrap();
    let (mut state, mut mem) = machine(0x0600, &[]);
    for (a, b) in image.iter() {
        mem.set(*a, *b);
    }
    reset(&mut state);
    assert_eq!(run_until_fetch(&mut state, &mut mem), 7);
    assert_eq!(run_until_fetch(&mut state, &mut mem), 6);
    assert_eq!(state.registers.sp, 0xFB);
    run_until_fetch(&mut state, &mut mem);
    assert_eq!(run_until_fetch(&mut state, &mut mem), 6);
    assert_eq!(state.registers.pc, 0x0603);
    assert_eq!(state.registers.sp, 0xFD);
    assert_eq!(state.registers.ac, 0x55);
}

#[test]
fn stack_push_and_pull() {
    let (mut state, mut mem) = boot(0x0600, &[0xA9, 0x99, 0x48, 0xA9, 0x00, 0x68, 0xEA]);
    run_until_fetch(&mut state, &mut mem);
    assert_eq!(run_until_fetch(&mut state, &mut mem), 3);
    assert_eq!(mem.read(0x01FD), 0x99);
    run_until_fetch(&mut state, &mut mem);
    assert_eq!(run_until_fetch(&mut state, &mut mem), 4);
    assert_eq!(state.registers.ac, 0x99);
    assert!(state.registers.status_has(NEGATIVE));
}

#[test]
fn read_modify_write_and_indexed_page_cross() {
    let (mut state, mut mem) = boot(0x0600, &[0xE6, 0x40, 0xA2, 0x01, 0xBD, 0xFF, 0x02, 0xEA]);
    mem.write(0x0040, 0x7F);
    mem.write(0x0300, 0x5A);
    assert_eq!(run_until_fetch(&mut state, &mut mem), 5);
    assert_eq!(mem.read(0x0040), 0x80);
    run_until_fetch(&mut state, &mut mem);
    assert_eq!(run_until_fetch(&mut state, &mut mem), 5);
    assert_eq!(state.registers.ac, 0x5A);
}

#[test]
fn irq_runs_the_break_sequence() {
    let (mut state, mut mem) = boot(0x0600, &[0x58, 0xEA, 0xEA]);
    mem.write(0xFFFE, 0x00);
    mem.write(0xFFFF, 0x08);
    run_until_fetch(&mut state, &mut mem);
    state.irq = true;
    run_until_fetch(&mut state, &mut mem);
    assert_eq!(run_until_fetch(&mut state, &mut mem), 7);
    assert_eq!(state.registers.pc, 0x0800);
    assert!(state.registers.status_has(rs6502::m6502::INTERRUPT));
    assert_eq!(mem.read(0x01FD), 0x06);
    assert_eq!(mem.read(0x01FC), 0x02);
}

#[test]
fn alu_helpers() {
    assert_eq!(add_with_carry(0x50, 0x50, false), (0xA0, false, true));
    assert_eq!(add_with_carry(0xFF, 0x00, true), (0x00, true, false));
    assert_eq!(subtract_with_borrow(0x10, 0x01, true), (0x0F, true, false));
    assert_eq!(subtract_with_borrow(0x00, 0x01, true), (0xFF, false, false));
    assert_eq!(set_flags(0b1111_1111, OVERFLOW, false), 0b1011_1111);
}

#[test]
fn status_text() {
    let mut r = Registers::new();
    assert_eq!(r.fmt_status(), "nv-bdIZc");
    r.status_add(CARRY | NEGATIVE);
    assert_eq!(r.fmt_status(), "Nv-bdIZC");
    r.status_remove(ZERO);
    assert!(!r.status_has(ZERO));
    assert!(r.status_has(CARRY | NEGATIVE));
}

#[test]
fn timing_states() {
    let t = TimingState::new();
    assert!(t.t0 && !t.t1 && !t.t2);
    let c = TimingState::clear();
    assert!(!c.t0 && !c.t6 && !c.sd2);
}

#[test]
fn half_steps_alternate_phases() {
    let (mut state, mut mem) = machine(0x0600, &[0xA9, 0x07, 0xEA]);
    reset(&mut state);
    for _ in 0..14 {
        half_step(&mut state, &mut mem);
    }
    assert_eq!(state.total_cycles, 7);
    assert!(state.clock1);
    assert_eq!(state.pd, 0xA9);
    for _ in 0..4 {
        half_step(&mut state, &mut mem);
    }
    assert_eq!(state.registers.ac, 0x07);
    assert_eq!(state.registers.pc, 0x0602);
}

#[test]
fn power_on_has_one_clock_phase() {
    let state = State::new();
    assert!(state.clock1 && !state.clock2);
    assert_eq!(state.registers.sp, 0xFD);
}

#[test]
fn reset_pushes_write_nothing() {
    let (mut state, mut mem) = machine(0x0600, &[0xEA]);
    reset(&mut state);
    for _ in 0..7 {
        run_cycle(&mut state, &mut mem);
        assert!(state.rw);
    }
    assert_eq!(mem.read(0x01FF), 0);
    assert_eq!(mem.read(0x01FE), 0);
    assert_eq!(mem.read(0x01FD), 0);
}

#[test]
fn half_step_with_reset_held() {
    let (mut state, mut mem) = machine(0x0600, &[0xEA]);
    state.res = true;
    half_step(&mut state, &mut mem);
    half_step(&mut state, &mut mem);
    assert!(state.clock1 && !state.clock2);
    assert!(state.next_timing.t2);
    state.res = false;
    for _ in 0..14 {
        half_step(&mut state, &mut mem);
    }
    assert_eq!(state.registers.pc, 0x0600);
}

#[test]
fn timing_text_lists_set_states() {
    let mut t = TimingState::clear();
    assert_eq!(t.fmt_timing(), "");
    t.t2 = true;
    t.t0 = true;
    assert_eq!(t.fmt_timing(), "T0 + T2");
    t.sd2 = true;
    assert_eq!(t.fmt_timing(), "T0 + T2 + SD2");
}

#[test]
fn interrupted_fetch_latches_the_opcode() {
    let (mut state, mut mem) = boot(0x0600, &[0x58, 0xEA, 0xEA]);
    state.irq = true;
    run_cycle(&mut state, &mut mem);
    run_cycle(&mut state, &mut mem);
    assert!(state.sync);
    assert_eq!(state.pd, 0xEA);
    assert!(state.interrupt);
    run_cycle(&mut state, &mut mem);
    assert_eq!(state.ir, 0x00);
}
