use emu_core::{Emulator, Fault, FaultKind};

fn machine_with_program(program: &[u8]) -> Emulator {
    let mut emu = Emulator::new();
    assert_eq!(emu.load(program, 0, program.len()), Ok(()));
    emu
}

fn screen_is_blank(emu: &mut Emulator) -> bool {
    let screen = emu.get_screen();
    screen.iter().all(|column| column.iter().all(|pixel| *pixel == 0))
}

#[test]
fn tick_fetches_advances_and_executes() {
    let mut emu = machine_with_program(&[0x20, 0x05]);
    assert_eq!(emu.tick(), Ok(2));
    assert_eq!(emu.get_pc(), 2);
    assert_eq!(emu.get_reg(0), 5);
}

#[test]
fn tick_reads_the_word_big_endian() {
    let mut emu = machine_with_program(&[0x12, 0x34]);
    assert_eq!(emu.tick(), Ok(0x234));
    let mut emu = machine_with_program(&[0x34, 0x12]);
    assert_eq!(emu.tick(), Ok(2));
    assert_eq!(emu.get_reg(4), 0x12);
}

#[test]
fn fetch_leaves_the_counter_in_place() {
    let mut emu = machine_with_program(&[0xAB, 0xCD]);
    assert_eq!(emu.fetch_op(), Ok(0xABCD));
    assert_eq!(emu.get_pc(), 0);
    assert_eq!(emu.fetch_op(), Ok(0xABCD));
}

#[test]
fn set_then_clear_program() {
    let mut emu = Emulator::new();
    assert_eq!(emu.load(&[0x20, 0x05], 0, 2), Ok(()));
    assert_eq!(emu.load(&[0x00, 0x0C], 2, 4), Ok(()));
    assert_eq!(emu.tick(), Ok(2));
    assert_eq!(emu.tick(), Ok(4));
    assert_eq!(emu.get_reg(0), 5);
    assert!(screen_is_blank(&mut emu));
}

#[test]
fn set_then_clear_program_on_a_dirty_screen() {
    let mut emu = Emulator::new();
    assert_eq!(emu.load(&[0x77; 32], 512, 544), Ok(()));
    assert_eq!(emu.load(&[0xD0, 0x00, 0x20, 0x05, 0x00, 0x0C], 0, 6), Ok(()));
    assert_eq!(emu.tick(), Ok(2));
    assert!(!screen_is_blank(&mut emu));
    assert_eq!(emu.tick(), Ok(4));
    assert_eq!(emu.tick(), Ok(6));
    assert_eq!(emu.get_reg(0), 5);
    assert!(screen_is_blank(&mut emu));
}

#[test]
fn tick_returns_the_counter_after_a_jump() {
    let mut emu = machine_with_program(&[0x10, 0x08, 0, 0, 0, 0, 0, 0, 0x21, 0x99]);
    assert_eq!(emu.tick(), Ok(8));
    assert_eq!(emu.tick(), Ok(10));
    assert_eq!(emu.get_reg(1), 0x99);
}

#[test]
fn tick_returns_the_counter_after_a_skip() {
    // S0 == S0 always holds, so the word at 2 is skipped
    let mut emu = machine_with_program(&[0x55, 0x00, 0x21, 0x11, 0x22, 0x22]);
    assert_eq!(emu.tick(), Ok(4));
    assert_eq!(emu.tick(), Ok(6));
    assert_eq!(emu.get_reg(1), 0);
    assert_eq!(emu.get_reg(2), 0x22);
}

#[test]
fn counting_loop_runs_to_its_end() {
    // S0 := 0; loop: S0 += 1; if S0 != S1 jump back; with S1 := 10
    let mut emu = machine_with_program(&[
        0x21, 0x0A, // 0: S1 := 10
        0x30, 0x01, // 2: S0 += 1
        0x55, 0x01, // 4: skip if S0 == S1
        0x10, 0x02, // 6: jump 2
        0x8F, 0x0F, // 8: unimplemented, ends the run
    ]);
    let mut steps = 0;
    let fault = loop {
        match emu.tick() {
            Ok(_) => steps += 1,
            Err(fault) => break fault,
        }
    };
    assert_eq!(emu.get_reg(0), 10);
    assert_eq!(steps, 1 + 10 * 3 - 1);
    assert_eq!(
        fault,
        Fault { kind: FaultKind::UnimplementedOpcode, opcode: Some(0x8F0F), pc: 10 }
    );
}

#[test]
fn tick_at_the_last_word_of_memory() {
    let mut emu = Emulator::new();
    assert_eq!(emu.load(&[0x2E, 0x77], 2206, 2208), Ok(()));
    emu.set_pc(2206);
    assert_eq!(emu.tick(), Ok(2208));
    assert_eq!(emu.get_reg(0xE), 0x77);
    assert_eq!(
        emu.tick(),
        Err(Fault { kind: FaultKind::Addressing, opcode: None, pc: 2208 })
    );
    assert_eq!(emu.get_pc(), 2208);
}

#[test]
fn fetch_needs_both_bytes_in_memory() {
    let mut emu = Emulator::new();
    emu.set_pc(2207);
    assert_eq!(
        emu.fetch_op(),
        Err(Fault { kind: FaultKind::Addressing, opcode: None, pc: 2207 })
    );
    assert_eq!(
        emu.tick(),
        Err(Fault { kind: FaultKind::Addressing, opcode: None, pc: 2207 })
    );
    assert_eq!(emu.get_pc(), 2207);
}

#[test]
fn fetch_far_outside_memory_is_a_fault() {
    for pc in [2208u16, 0x0FFF, 0x8000, 0xFFFE, 0xFFFF].iter() {
        let mut emu = Emulator::new();
        emu.set_pc(*pc);
        assert_eq!(
            emu.tick(),
            Err(Fault { kind: FaultKind::Addressing, opcode: None, pc: *pc })
        );
        assert_eq!(emu.get_pc(), *pc);
    }
}

#[test]
fn jump_past_memory_faults_at_the_next_fetch() {
    let mut emu = machine_with_program(&[0x1F, 0xFF]);
    assert_eq!(emu.tick(), Ok(0xFFF));
    assert_eq!(
        emu.tick(),
        Err(Fault { kind: FaultKind::Addressing, opcode: None, pc: 0xFFF })
    );
}

#[test]
fn tick_reports_an_unimplemented_word() {
    let mut emu = machine_with_program(&[0x00, 0x00, 0xB0, 0x00]);
    assert_eq!(emu.tick(), Ok(2));
    assert_eq!(
        emu.tick(),
        Err(Fault { kind: FaultKind::UnimplementedOpcode, opcode: Some(0xB000), pc: 4 })
    );
    assert_eq!(emu.get_pc(), 4);
}

#[test]
fn tick_reports_a_division_by_zero() {
    let mut emu = machine_with_program(&[0x20, 0x09, 0x54, 0x01]);
    assert_eq!(emu.tick(), Ok(2));
    assert_eq!(
        emu.tick(),
        Err(Fault { kind: FaultKind::Arithmetic, opcode: Some(0x5401), pc: 4 })
    );
    assert_eq!(emu.get_reg(0), 9);
    assert_eq!(emu.get_reg(1), 0);
    assert_eq!(emu.get_pc(), 4);
}

#[test]
fn tick_reports_a_bad_key_index() {
    let mut emu = machine_with_program(&[0x23, 0x06, 0x90, 0x03]);
    assert_eq!(emu.tick(), Ok(2));
    assert_eq!(
        emu.tick(),
        Err(Fault { kind: FaultKind::InvalidKeyIndex, opcode: Some(0x9003), pc: 4 })
    );
    assert_eq!(emu.get_pc(), 4);
}

#[test]
fn tick_reports_a_glyph_outside_memory() {
    let mut emu = machine_with_program(&[0x20, 0x25, 0xF0, 0x12]);
    assert_eq!(emu.tick(), Ok(2));
    assert_eq!(
        emu.tick(),
        Err(Fault { kind: FaultKind::Addressing, opcode: Some(0xF012), pc: 4 })
    );
    assert!(screen_is_blank(&mut emu));
}

#[test]
fn tick_with_stores_the_injected_value() {
    let mut emu = machine_with_program(&[0x70, 0x03, 0x70, 0x04]);
    assert_eq!(emu.tick_with(9), Ok(2));
    assert_eq!(emu.tick_with(0), Ok(4));
    assert_eq!(emu.get_reg(3), 9);
    assert_eq!(emu.get_reg(4), 0);
}

#[test]
fn tick_with_matches_tick_on_deterministic_words() {
    let program = [0x21, 0xF0, 0x31, 0x20, 0x52, 0x01, 0x61, 0x01, 0x55, 0x11, 0x00, 0x00, 0x10,
        0x00];
    let mut plain = machine_with_program(&program);
    let mut injected = machine_with_program(&program);
    for step in 0..20u8 {
        assert_eq!(plain.tick(), injected.tick_with(step % 16));
        for i in 0..16 {
            assert_eq!(plain.get_reg(i), injected.get_reg(i));
        }
        assert_eq!(plain.get_font_color(), injected.get_font_color());
    }
}

#[test]
fn tick_draws_a_random_value_below_sixteen() {
    let mut emu = machine_with_program(&[0x70, 0x05, 0x10, 0x00]);
    for _ in 0..200 {
        assert_eq!(emu.tick(), Ok(2));
        assert!(emu.get_reg(5) < 16);
        assert_eq!(emu.tick(), Ok(0));
    }
}
