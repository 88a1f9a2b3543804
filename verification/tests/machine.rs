use emu_core::{Emulator, Fault, FaultKind, SCREEN_HEIGHT, SCREEN_WIDTH};

const MEMORY_BYTES: usize = 2208;

fn addressing_fault_at(pc: u16) -> Fault {
    Fault { kind: FaultKind::Addressing, opcode: None, pc }
}

#[test]
fn new_machine_is_zeroed() {
    let mut emu = Emulator::new();
    assert_eq!(emu.get_pc(), 0);
    assert_eq!(emu.get_dt(), 0);
    assert_eq!(emu.get_loop_point(), 0);
    assert_eq!(emu.get_font_color(), 15);
    for i in 0..16 {
        assert_eq!(emu.get_reg(i), 0);
    }
    for k in 0..6 {
        assert!(!emu.is_key_down(k));
    }
    for address in 0..MEMORY_BYTES {
        assert_eq!(emu.get_ram(address), 0);
    }
    let screen = emu.get_screen();
    for column in screen.iter() {
        for pixel in column.iter() {
            assert_eq!(*pixel, 0);
        }
    }
}

#[test]
fn screen_is_sixty_four_square() {
    assert_eq!(SCREEN_WIDTH, 64);
    assert_eq!(SCREEN_HEIGHT, 64);
    let mut emu = Emulator::new();
    let screen = emu.get_screen();
    assert_eq!(screen.len(), 64);
    assert_eq!(screen[0].len(), 64);
}

#[test]
fn load_copies_bytes_verbatim() {
    let mut emu = Emulator::new();
    assert_eq!(emu.load(&[0xDE, 0xAD, 0xBE, 0xEF], 100, 104), Ok(()));
    assert_eq!(emu.get_ram(99), 0);
    assert_eq!(emu.get_ram(100), 0xDE);
    assert_eq!(emu.get_ram(101), 0xAD);
    assert_eq!(emu.get_ram(102), 0xBE);
    assert_eq!(emu.get_ram(103), 0xEF);
    assert_eq!(emu.get_ram(104), 0);
}

#[test]
fn load_overwrites_only_its_range() {
    let mut emu = Emulator::new();
    assert_eq!(emu.load(&[1, 2, 3, 4, 5, 6], 10, 16), Ok(()));
    assert_eq!(emu.load(&[9, 9], 12, 14), Ok(()));
    let expected = [1, 2, 9, 9, 5, 6];
    for (offset, byte) in expected.iter().enumerate() {
        assert_eq!(emu.get_ram(10 + offset), *byte);
    }
}

#[test]
fn load_reaches_every_region() {
    let mut emu = Emulator::new();
    assert_eq!(emu.load(&[0x11], 0, 1), Ok(()));
    assert_eq!(emu.load(&[0x22], 512, 513), Ok(()));
    assert_eq!(emu.load(&[0x33], 1024, 1025), Ok(()));
    assert_eq!(emu.load(&[0x44], MEMORY_BYTES - 1, MEMORY_BYTES), Ok(()));
    assert_eq!(emu.get_ram(0), 0x11);
    assert_eq!(emu.get_ram(512), 0x22);
    assert_eq!(emu.get_ram(1024), 0x33);
    assert_eq!(emu.get_ram(MEMORY_BYTES - 1), 0x44);
}

#[test]
fn load_accepts_all_of_memory() {
    let mut emu = Emulator::new();
    let image = vec![0x5A; MEMORY_BYTES];
    assert_eq!(emu.load(&image, 0, MEMORY_BYTES), Ok(()));
    for address in 0..MEMORY_BYTES {
        assert_eq!(emu.get_ram(address), 0x5A);
    }
}

#[test]
fn load_accepts_empty_range() {
    let mut emu = Emulator::new();
    assert_eq!(emu.load(&[], 7, 7), Ok(()));
    assert_eq!(emu.load(&[], MEMORY_BYTES, MEMORY_BYTES), Ok(()));
    assert_eq!(emu.get_ram(7), 0);
}

#[test]
fn load_rejects_range_past_memory() {
    let mut emu = Emulator::new();
    emu.set_pc(0x123);
    let res = emu.load(&[1, 2, 3, 4], MEMORY_BYTES - 2, MEMORY_BYTES + 2);
    assert_eq!(res, Err(addressing_fault_at(0x123)));
    assert_eq!(emu.get_ram(MEMORY_BYTES - 2), 0);
    assert_eq!(emu.get_ram(MEMORY_BYTES - 1), 0);
}

#[test]
fn load_rejects_length_mismatch() {
    let mut emu = Emulator::new();
    assert_eq!(emu.load(&[1, 2, 3], 0, 2), Err(addressing_fault_at(0)));
    assert_eq!(emu.load(&[1, 2, 3], 0, 4), Err(addressing_fault_at(0)));
    for address in 0..4 {
        assert_eq!(emu.get_ram(address), 0);
    }
}

#[test]
fn load_rejects_reversed_range() {
    let mut emu = Emulator::new();
    assert_eq!(emu.load(&[], 5, 4), Err(addressing_fault_at(0)));
    assert_eq!(emu.load(&[1], 5, 4), Err(addressing_fault_at(0)));
    assert_eq!(emu.get_ram(4), 0);
    assert_eq!(emu.get_ram(5), 0);
}

#[test]
fn load_rejects_huge_bounds() {
    let mut emu = Emulator::new();
    assert_eq!(emu.load(&[1], usize::MAX - 1, usize::MAX), Err(addressing_fault_at(0)));
    assert_eq!(emu.load(&[1], usize::MAX, 0), Err(addressing_fault_at(0)));
}

#[test]
fn keys_follow_down_and_up() {
    let mut emu = Emulator::new();
    emu.key_down(0);
    emu.key_down(5);
    assert!(emu.is_key_down(0));
    assert!(!emu.is_key_down(1));
    assert!(emu.is_key_down(5));
    emu.key_up(0);
    assert!(!emu.is_key_down(0));
    assert!(emu.is_key_down(5));
    emu.key_up(5);
    emu.key_up(5);
    assert!(!emu.is_key_down(5));
}

#[test]
fn delay_timer_counts_ticks() {
    let mut emu = Emulator::new();
    emu.tick_dt();
    assert_eq!(emu.get_dt(), 1);
    emu.tick_dt();
    emu.tick_dt();
    assert_eq!(emu.get_dt(), 3);
    assert_eq!(emu.get_pc(), 0);
}

#[test]
fn delay_timer_wraps_at_two_to_the_sixteen() {
    let mut emu = Emulator::new();
    for _ in 0..65535 {
        emu.tick_dt();
    }
    assert_eq!(emu.get_dt(), 65535);
    emu.tick_dt();
    assert_eq!(emu.get_dt(), 0);
    emu.tick_dt();
    assert_eq!(emu.get_dt(), 1);
}

#[test]
fn instructions_leave_the_delay_timer_alone() {
    let mut emu = Emulator::new();
    emu.tick_dt();
    assert_eq!(emu.load(&[0x20, 0x05, 0x00, 0x0C, 0x10, 0x00], 0, 6), Ok(()));
    for _ in 0..10 {
        assert!(emu.tick().is_ok());
    }
    assert_eq!(emu.get_dt(), 1);
}

#[test]
fn set_pc_forces_the_counter() {
    let mut emu = Emulator::new();
    emu.set_pc(0x0ABC);
    assert_eq!(emu.get_pc(), 0x0ABC);
    emu.set_pc(0xFFFF);
    assert_eq!(emu.get_pc(), 0xFFFF);
    emu.set_pc(0);
    assert_eq!(emu.get_pc(), 0);
}

#[test]
fn get_screen_hands_out_a_snapshot() {
    let mut emu = Emulator::new();
    let mut first = emu.get_screen();
    first[3][4] = 9;
    let second = emu.get_screen();
    assert_eq!(second[3][4], 0);
}

#[test]
fn clone_is_an_independent_copy() {
    let mut emu = Emulator::new();
    assert_eq!(emu.execute_with(0x2A42, 0), Ok(()));
    emu.key_down(2);
    let mut copy = emu.clone();
    assert_eq!(copy.get_reg(10), 0x42);
    assert!(copy.is_key_down(2));
    assert_eq!(copy.execute_with(0x2A07, 0), Ok(()));
    assert_eq!(copy.get_reg(10), 0x07);
    assert_eq!(emu.get_reg(10), 0x42);
}
