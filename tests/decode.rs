use falcon_mos6502::{decode, decode_all, Instruction, Opcode, Operand};

const PROGRAM: [u8; 27] = [
    0xa0, 0x00, 0xb1, 0x80, 0xf0, 0x11, 0xc9, 0x41, 0x90, 0x06, 0xc9, 0x5b, 0xb0, 0x02, 0x09,
    0x20, 0x91, 0x82, 0xc8, 0xd0, 0xed, 0x38, 0x60, 0x91, 0x82, 0x18, 0x60,
];

fn decoded(bytes: &[u8]) -> Instruction {
    decode(bytes).expect("bytes should decode")
}

#[test]
fn immediate_load_y() {
    let i = decoded(&[0xa0, 0x00]);
    assert_eq!(*i.opcode(), Opcode::Ldy);
    assert_eq!(*i.operand(), Operand::Immediate(0x00));
    assert_eq!(i.size(), 2);
    assert_eq!(i.to_string(), "LDY #$00");
}

#[test]
fn indirect_indexed_load() {
    let i = decoded(&[0xb1, 0x80]);
    assert_eq!(*i.opcode(), Opcode::Lda);
    assert_eq!(*i.operand(), Operand::IndirectIndexed(0x80));
    assert_eq!(i.size(), 2);
    assert_eq!(i.to_string(), "LDA ($80),Y");
}

#[test]
fn absolute_operand_is_big_endian() {
    let i = decoded(&[0xad, 0x12, 0x34]);
    assert_eq!(*i.opcode(), Opcode::Lda);
    assert_eq!(*i.operand(), Operand::Absolute(0x1234));
    assert_eq!(i.size(), 3);
    assert_eq!(i.operand().to_string(), "$1234");
    assert_eq!(i.to_string(), "LDA $1234");
}

#[test]
fn relative_operand_is_signed() {
    for op in [0x10u8, 0x30, 0x50, 0x70, 0x90, 0xb0, 0xd0, 0xf0] {
        let i = decoded(&[op, 0xf0]);
        assert_eq!(*i.operand(), Operand::Relative(-16));
        assert_ne!(*i.operand(), Operand::Relative(0x70));
        assert_eq!(i.size(), 2);
        assert_eq!(i.operand().to_string(), "$F0");
    }
    assert_eq!(decoded(&[0xf0, 0xf0]).to_string(), "BEQ $F0");
}

#[test]
fn every_documented_opcode_decodes_with_padding() {
    let mut defined = 0;
    for op in 0..=255u8 {
        if let Some(i) = decode(&[op, 0, 0]) {
            defined += 1;
            assert!((1..=3).contains(&i.size()));
            let expected = match *i.operand() {
                Operand::Accumulator | Operand::Implied => 1,
                Operand::Absolute(_)
                | Operand::AbsoluteX(_)
                | Operand::AbsoluteY(_)
                | Operand::Indirect(_) => 3,
                _ => 2,
            };
            assert_eq!(i.size(), expected);
        } else {
            assert!(decode(&[op]).is_none());
            assert!(decode(&[op, 0xff, 0xff, 0xff]).is_none());
        }
    }
    assert_eq!(defined, 151);
}

#[test]
fn undocumented_opcodes_never_decode() {
    for op in [0x02u8, 0x03, 0x04, 0x0b, 0x1a, 0x80, 0x89, 0x9c, 0xcb, 0xeb, 0xff] {
        assert!(decode(&[op]).is_none());
        assert!(decode(&[op, 0, 0]).is_none());
        assert!(decode(&[op, 0x12, 0x34, 0x56]).is_none());
    }
}

#[test]
fn empty_window_does_not_decode() {
    assert!(decode(&[]).is_none());
}

#[test]
fn truncated_windows_do_not_decode() {
    assert!(decode(&[0xad]).is_none());
    assert!(decode(&[0xad, 0x12]).is_none());
    assert!(decode(&[0xa9]).is_none());
    assert!(decode(&[0x6c, 0x00]).is_none());
}

#[test]
fn only_the_needed_bytes_are_read() {
    assert_eq!(decoded(&[0xad, 0x12, 0x34, 0x99]), decoded(&[0xad, 0x12, 0x34]));
    assert_eq!(decoded(&[0xa9, 0x07, 0xff]), decoded(&[0xa9, 0x07]));
    assert_eq!(decoded(&[0xea, 0x01, 0x02]), decoded(&[0xea]));
    assert_eq!(decoded(&[0xea, 0x01, 0x02]).size(), 1);
}

#[test]
fn operand_text_per_mode() {
    assert_eq!(Operand::Absolute(0xbeef).to_string(), "$BEEF");
    assert_eq!(Operand::AbsoluteX(0x0a0b).to_string(), "$0A0B");
    assert_eq!(Operand::AbsoluteY(0x0001).to_string(), "$0001");
    assert_eq!(Operand::Accumulator.to_string(), "A");
    assert_eq!(Operand::Immediate(0x0f).to_string(), "#$0F");
    assert_eq!(Operand::Implied.to_string(), "");
    assert_eq!(Operand::IndexedIndirect(0x44).to_string(), "($44,X)");
    assert_eq!(Operand::Indirect(0x1234).to_string(), "($1234)");
    assert_eq!(Operand::IndirectIndexed(0xab).to_string(), "($AB),Y");
    assert_eq!(Operand::Relative(-1).to_string(), "$FF");
    assert_eq!(Operand::Relative(0x11).to_string(), "$11");
    assert_eq!(Operand::ZeroPage(0x00).to_string(), "$00");
    assert_eq!(Operand::ZeroPageX(0x9a).to_string(), "$9A");
    assert_eq!(Operand::ZeroPageY(0xc3).to_string(), "$C3");
}

#[test]
fn instruction_text_per_mode() {
    assert_eq!(decoded(&[0x0a]).to_string(), "ASL A");
    assert_eq!(decoded(&[0x60]).to_string(), "RTS");
    assert_eq!(decoded(&[0x00]).to_string(), "BRK");
    assert_eq!(decoded(&[0x6c, 0xff, 0xfc]).to_string(), "JMP ($FFFC)");
    assert_eq!(decoded(&[0xa1, 0x10]).to_string(), "LDA ($10,X)");
    assert_eq!(decoded(&[0xb6, 0x20]).to_string(), "LDX $20");
    assert_eq!(*decoded(&[0xb6, 0x20]).operand(), Operand::ZeroPageY(0x20));
    assert_eq!(decoded(&[0x95, 0x20]).to_string(), "STA $20");
    assert_eq!(*decoded(&[0x95, 0x20]).operand(), Operand::ZeroPageX(0x20));
    assert_eq!(decoded(&[0x99, 0x02, 0x00]).to_string(), "STA $0200");
    assert_eq!(*decoded(&[0x99, 0x02, 0x00]).operand(), Operand::AbsoluteY(0x0200));
    assert_eq!(decoded(&[0x3e, 0x00, 0x10]).to_string(), "ROL $0010");
    assert_eq!(*decoded(&[0x3e, 0x00, 0x10]).operand(), Operand::AbsoluteX(0x0010));
    assert_eq!(decoded(&[0x20, 0xc0, 0x00]).to_string(), "JSR $C000");
}

#[test]
fn mnemonics() {
    assert_eq!(Opcode::Adc.mnemonic(), "ADC");
    assert_eq!(Opcode::Tya.mnemonic(), "TYA");
    assert_eq!(*decoded(&[0x9a]).opcode(), Opcode::Txs);
    assert_eq!(*decoded(&[0xe9, 0x01]).opcode(), Opcode::Sbc);
    assert_eq!(*decoded(&[0x2c, 0x00, 0x00]).opcode(), Opcode::Bit);
}

#[test]
fn example_program_listing() {
    let expected: [(usize, &str, usize); 16] = [
        (0x00, "LDY #$00", 2),
        (0x02, "LDA ($80),Y", 2),
        (0x04, "BEQ $11", 2),
        (0x06, "CMP #$41", 2),
        (0x08, "BCC $06", 2),
        (0x0a, "CMP #$5B", 2),
        (0x0c, "BCS $02", 2),
        (0x0e, "ORA #$20", 2),
        (0x10, "STA ($82),Y", 2),
        (0x12, "INY", 1),
        (0x13, "BNE $ED", 2),
        (0x15, "SEC", 1),
        (0x16, "RTS", 1),
        (0x17, "STA ($82),Y", 2),
        (0x19, "CLC", 1),
        (0x1a, "RTS", 1),
    ];
    let listing = decode_all(&PROGRAM);
    assert_eq!(listing.len(), expected.len());
    for ((offset, instruction), (want_offset, want_text, want_size)) in
        listing.iter().zip(expected.iter())
    {
        assert_eq!(offset, want_offset);
        assert_eq!(instruction.to_string(), *want_text);
        assert_eq!(instruction.size(), *want_size);
        assert_eq!(decode(&PROGRAM[*offset..]).as_ref(), Some(instruction));
    }
    assert_eq!(*listing[10].1.operand(), Operand::Relative(-19));
}

#[test]
fn listing_stops_at_undocumented_opcode() {
    let listing = decode_all(&[0xea, 0xa9, 0x01, 0x02, 0xea]);
    assert_eq!(listing.len(), 2);
    assert_eq!(listing[0].0, 0);
    assert_eq!(listing[1].0, 1);
    assert_eq!(*listing[1].1.operand(), Operand::Immediate(0x01));
}

#[test]
fn listing_stops_at_truncated_instruction() {
    let listing = decode_all(&[0x18, 0x8d, 0x00]);
    assert_eq!(listing.len(), 1);
    assert_eq!(*listing[0].1.opcode(), Opcode::Clc);
    assert!(decode_all(&[]).is_empty());
}
