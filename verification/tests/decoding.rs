use emu_core::{decode, Instruction};

#[test]
fn decode_fixed_words() {
    assert_eq!(decode(0x0000), Some(Instruction::Nop));
    assert_eq!(decode(0x000C), Some(Instruction::ClearScreen));
}

#[test]
fn decode_jump_keeps_low_twelve_bits() {
    assert_eq!(decode(0x1000), Some(Instruction::Jump { addr: 0x000 }));
    assert_eq!(decode(0x1ABC), Some(Instruction::Jump { addr: 0xABC }));
    assert_eq!(decode(0x1FFF), Some(Instruction::Jump { addr: 0xFFF }));
}

#[test]
fn decode_immediate_forms() {
    assert_eq!(decode(0x2A7F), Some(Instruction::SetImm { x: 0xA, nn: 0x7F }));
    assert_eq!(decode(0x3012), Some(Instruction::AddImm { x: 0x0, nn: 0x12 }));
    assert_eq!(decode(0x4FFF), Some(Instruction::SubImm { x: 0xF, nn: 0xFF }));
}

#[test]
fn decode_register_forms() {
    assert_eq!(decode(0x5012), Some(Instruction::Move { y: 1, z: 2 }));
    assert_eq!(decode(0x5134), Some(Instruction::AddReg { y: 3, z: 4 }));
    assert_eq!(decode(0x5256), Some(Instruction::SubReg { y: 5, z: 6 }));
    assert_eq!(decode(0x5378), Some(Instruction::MulReg { y: 7, z: 8 }));
    assert_eq!(decode(0x549A), Some(Instruction::DivReg { y: 9, z: 0xA }));
    assert_eq!(decode(0x55BC), Some(Instruction::SkipEq { y: 0xB, z: 0xC }));
    assert_eq!(decode(0x56DE), Some(Instruction::SkipNe { y: 0xD, z: 0xE }));
    assert_eq!(decode(0x57F0), Some(Instruction::SkipGt { y: 0xF, z: 0 }));
    assert_eq!(decode(0x5812), Some(Instruction::SkipOverlapBefore { y: 1, z: 2 }));
    assert_eq!(decode(0x5912), Some(Instruction::SkipOverlapAfter { y: 1, z: 2 }));
    assert_eq!(decode(0x5A12), Some(Instruction::SkipCollide { y: 1, z: 2 }));
}

#[test]
fn decode_single_nibble_forms() {
    assert_eq!(decode(0x6009), Some(Instruction::SetColor { n: 9 }));
    assert_eq!(decode(0x6103), Some(Instruction::SetColorFromReg { n: 3 }));
    assert_eq!(decode(0x700F), Some(Instruction::Random { n: 0xF }));
    assert_eq!(decode(0x7104), Some(Instruction::SetLoopFromReg { n: 4 }));
    assert_eq!(decode(0x8007), Some(Instruction::SetLoop { n: 7 }));
    assert_eq!(decode(0x9002), Some(Instruction::SkipKey { n: 2 }));
    assert_eq!(decode(0x9105), Some(Instruction::SkipNotKey { n: 5 }));
}

#[test]
fn decode_three_nibble_forms() {
    assert_eq!(decode(0xA312), Some(Instruction::SkipRel { count: 3, y: 1, z: 2 }));
    assert_eq!(decode(0xD0AB), Some(Instruction::DrawSprite { sprite: 0, y: 0xA, z: 0xB }));
    assert_eq!(decode(0xE123), Some(Instruction::DrawNumber { x: 1, y: 2, z: 3 }));
    assert_eq!(decode(0xFFED), Some(Instruction::DrawDigit { x: 0xF, y: 0xE, z: 0xD }));
}

#[test]
fn decode_rejects_words_outside_the_table() {
    let outside = [
        0x0001, 0x000B, 0x000D, 0x00C0, 0x0C00, 0x0100, 0x0FFF, 0x5B00, 0x5C12, 0x5F00, 0x6010,
        0x6110, 0x6200, 0x6F00, 0x7010, 0x7110, 0x7200, 0x8010, 0x8100, 0x8F0F, 0x9010, 0x9110,
        0x9200, 0xB000, 0xBFFF, 0xC000, 0xCABC,
    ];
    for op in outside.iter() {
        assert_eq!(decode(*op), None);
    }
}

#[test]
fn decode_covers_each_leading_nibble() {
    let mut known = 0u32;
    let mut op = 0u32;
    while op <= 0xFFFF {
        if decode(op as u16).is_some() {
            known += 1;
        }
        op += 1;
    }
    // 2 fixed words, 4 full 12-bit families (1, 2, 3, 4), 11 register forms
    // under 5, seven single-nibble forms, and the A, D, E and F families.
    assert_eq!(known, 2 + 4 * 4096 + 11 * 256 + 7 * 16 + 4 * 4096);
}
