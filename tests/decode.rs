use chip8dynarec::decode::{decode, instruction_word};
use chip8dynarec::opcode::Opcode;

#[test]
fn decode_splits_every_field() {
    let ins = decode(0xD12F);
    assert_eq!(ins.tag, 0xD);
    assert_eq!(ins.x, 0x1);
    assert_eq!(ins.y, 0x2);
    assert_eq!(ins.n, 0xF);
    assert_eq!(ins.kk, 0x2F);
    assert_eq!(ins.nnn, 0x12F);
}

#[test]
fn decode_is_total_and_matches_shifts() {
    for w in 0..=u16::MAX {
        let ins = decode(w);
        assert_eq!(ins.tag as u16, w >> 12);
        assert_eq!(ins.x as u16, (w >> 8) & 0xF);
        assert_eq!(ins.y as u16, (w >> 4) & 0xF);
        assert_eq!(ins.kk as u16, w & 0xFF);
        assert_eq!(ins.nnn, w & 0xFFF);
    }
}

#[test]
fn instruction_word_is_big_endian() {
    assert_eq!(instruction_word(0x80, 0x14), 0x8014);
}

#[test]
fn opcodes_are_recognized() {
    assert_eq!(Opcode::from_word(0x00E0), Some(Opcode::Clear));
    assert_eq!(Opcode::from_word(0x00EE), Some(Opcode::Return));
    assert_eq!(Opcode::from_word(0x8014), Some(Opcode::AddReg { x: 0, y: 1 }));
    assert_eq!(Opcode::from_word(0xF265), Some(Opcode::LoadRegisters { x: 2 }));
    assert_eq!(Opcode::from_word(0x0000), None);
    assert_eq!(Opcode::from_word(0x8008), None);
    assert_eq!(Opcode::from_word(0x5121), None);
    assert_eq!(Opcode::from_word(0xE1A2), None);
}
