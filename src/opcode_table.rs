//! The opcode matrix: which operation and addressing mode each opcode byte selects.
use vstd::prelude::*;

verus! {

/// An operation of the processor, named by its assembly mnemonic.
#[derive(Clone, Copy, Debug, PartialEq, Eq, Hash, Structural)]
pub enum Opcode {
    /// Add with carry.
    Adc,
    /// Bitwise AND with the accumulator.
    And,
    /// Arithmetic shift left.
    Asl,
    /// Branch if carry clear.
    Bcc,
    /// Branch if carry set.
    Bcs,
    /// Branch if equal (zero set).
    Beq,
    /// Test bits.
    Bit,
    /// Branch if minus.
    Bmi,
    /// Branch if not equal (zero clear).
    Bne,
    /// Branch if plus.
    Bpl,
    /// Force interrupt.
    Brk,
    /// Branch if overflow clear.
    Bvc,
    /// Branch if overflow set.
    Bvs,
    /// Clear carry.
    Clc,
    /// Clear decimal mode.
    Cld,
    /// Clear interrupt disable.
    Cli,
    /// Clear overflow.
    Clv,
    /// Compare with the accumulator.
    Cmp,
    /// Compare with X.
    Cpx,
    /// Compare with Y.
    Cpy,
    /// Decrement memory.
    Dec,
    /// Decrement X.
    Dex,
    /// Decrement Y.
    Dey,
    /// Exclusive OR with the accumulator.
    Eor,
    /// Increment memory.
    Inc,
    /// Increment X.
    Inx,
    /// Increment Y.
    Iny,
    /// Jump.
    Jmp,
    /// Jump to subroutine.
    Jsr,
    /// Load the accumulator.
    Lda,
    /// Load X.
    Ldx,
    /// Load Y.
    Ldy,
    /// Logical shift right.
    Lsr,
    /// No operation.
    Nop,
    /// Bitwise OR with the accumulator.
    Ora,
    /// Push the accumulator.
    Pha,
    /// Push the status register.
    Php,
    /// Pull the accumulator.
    Pla,
    /// Pull the status register.
    Plp,
    /// Rotate left.
    Rol,
    /// Rotate right.
    Ror,
    /// Return from interrupt.
    Rti,
    /// Return from subroutine.
    Rts,
    /// Subtract with borrow.
    Sbc,
    /// Set carry.
    Sec,
    /// Set decimal mode.
    Sed,
    /// Set interrupt disable.
    Sei,
    /// Store the accumulator.
    Sta,
    /// Store X.
    Stx,
    /// Store Y.
    Sty,
    /// Transfer the accumulator to X.
    Tax,
    /// Transfer the accumulator to Y.
    Tay,
    /// Transfer the stack pointer to X.
    Tsx,
    /// Transfer X to the accumulator.
    Txa,
    /// Transfer X to the stack pointer.
    Txs,
    /// Transfer Y to the accumulator.
    Tya,
}

/// How an instruction's operand is laid out after its opcode byte.
#[derive(Clone, Copy, Debug, PartialEq, Eq, Hash, Structural)]
pub enum AddressMode {
    /// A 16-bit address.
    Absolute,
    /// A 16-bit address indexed by X.
    AbsoluteX,
    /// A 16-bit address indexed by Y.
    AbsoluteY,
    /// The accumulator; no operand bytes.
    Accumulator,
    /// An 8-bit literal.
    Immediate,
    /// No operand.
    Implied,
    /// An 8-bit zero-page pointer, indexed by X before the pointer is read.
    IndexedIndirect,
    /// A 16-bit pointer.
    Indirect,
    /// An 8-bit zero-page pointer, indexed by Y after the pointer is read.
    IndirectIndexed,
    /// A signed 8-bit branch offset.
    Relative,
    /// An 8-bit zero-page address.
    ZeroPage,
    /// An 8-bit zero-page address indexed by X.
    ZeroPageX,
    /// An 8-bit zero-page address indexed by Y.
    ZeroPageY,
}

impl AddressMode {
    /// Total bytes of an instruction in this mode, opcode included.
    pub open spec fn spec_size(self) -> nat {
        match self {
            AddressMode::Accumulator | AddressMode::Implied => 1,
            AddressMode::Absolute | AddressMode::AbsoluteX | AddressMode::AbsoluteY
            | AddressMode::Indirect => 3,
            _ => 2,
        }
    }

    /// Total bytes of an instruction in this mode, opcode included.
    pub fn size(&self) -> (r: usize)
        ensures
            r == self.spec_size(),
    {
        match self {
            AddressMode::Accumulator | AddressMode::Implied => 1,
            AddressMode::Absolute | AddressMode::AbsoluteX | AddressMode::AbsoluteY
            | AddressMode::Indirect => 3,
            _ => 2,
        }
    }
}

impl Opcode {
    /// The mnemonic of the operation, in upper case.
    pub open spec fn spec_mnemonic(self) -> Seq<char> {
        match self {
            Opcode::Adc => "ADC"@,
            Opcode::And => "AND"@,
            Opcode::Asl => "ASL"@,
            Opcode::Bcc => "BCC"@,
            Opcode::Bcs => "BCS"@,
            Opcode::Beq => "BEQ"@,
            Opcode::Bit => "BIT"@,
            Opcode::Bmi => "BMI"@,
            Opcode::Bne => "BNE"@,
            Opcode::Bpl => "BPL"@,
            Opcode::Brk => "BRK"@,
            Opcode::Bvc => "BVC"@,
            Opcode::Bvs => "BVS"@,
            Opcode::Clc => "CLC"@,
            Opcode::Cld => "CLD"@,
            Opcode::Cli => "CLI"@,
            Opcode::Clv => "CLV"@,
            Opcode::Cmp => "CMP"@,
            Opcode::Cpx => "CPX"@,
            Opcode::Cpy => "CPY"@,
            Opcode::Dec => "DEC"@,
            Opcode::Dex => "DEX"@,
            Opcode::Dey => "DEY"@,
            Opcode::Eor => "EOR"@,
            Opcode::Inc => "INC"@,
            Opcode::Inx => "INX"@,
            Opcode::Iny => "INY"@,
            Opcode::Jmp => "JMP"@,
            Opcode::Jsr => "JSR"@,
            Opcode::Lda => "LDA"@,
            Opcode::Ldx => "LDX"@,
            Opcode::Ldy => "LDY"@,
            Opcode::Lsr => "LSR"@,
            Opcode::Nop => "NOP"@,
            Opcode::Ora => "ORA"@,
            Opcode::Pha => "PHA"@,
            Opcode::Php => "PHP"@,
            Opcode::Pla => "PLA"@,
            Opcode::Plp => "PLP"@,
            Opcode::Rol => "ROL"@,
            Opcode::Ror => "ROR"@,
            Opcode::Rti => "RTI"@,
            Opcode::Rts => "RTS"@,
            Opcode::Sbc => "SBC"@,
            Opcode::Sec => "SEC"@,
            Opcode::Sed => "SED"@,
            Opcode::Sei => "SEI"@,
            Opcode::Sta => "STA"@,
            Opcode::Stx => "STX"@,
            Opcode::Sty => "STY"@,
            Opcode::Tax => "TAX"@,
            Opcode::Tay => "TAY"@,
            Opcode::Tsx => "TSX"@,
            Opcode::Txa => "TXA"@,
            Opcode::Txs => "TXS"@,
            Opcode::Tya => "TYA"@,
        }
    }

    /// The mnemonic of the operation, in upper case.
    pub fn mnemonic(&self) -> (r: &'static str)
        ensures
            r@ == self.spec_mnemonic(),
    {
        match self {
            Opcode::Adc => "ADC",
            Opcode::And => "AND",
            Opcode::Asl => "ASL",
            Opcode::Bcc => "BCC",
            Opcode::Bcs => "BCS",
            Opcode::Beq => "BEQ",
            Opcode::Bit => "BIT",
            Opcode::Bmi => "BMI",
            Opcode::Bne => "BNE",
            Opcode::Bpl => "BPL",
            Opcode::Brk => "BRK",
            Opcode::Bvc => "BVC",
            Opcode::Bvs => "BVS",
            Opcode::Clc => "CLC",
            Opcode::Cld => "CLD",
            Opcode::Cli => "CLI",
            Opcode::Clv => "CLV",
            Opcode::Cmp => "CMP",
            Opcode::Cpx => "CPX",
            Opcode::Cpy => "CPY",
            Opcode::Dec => "DEC",
            Opcode::Dex => "DEX",
            Opcode::Dey => "DEY",
            Opcode::Eor => "EOR",
            Opcode::Inc => "INC",
            Opcode::Inx => "INX",
            Opcode::Iny => "INY",
            Opcode::Jmp => "JMP",
            Opcode::Jsr => "JSR",
            Opcode::Lda => "LDA",
            Opcode::Ldx => "LDX",
            Opcode::Ldy => "LDY",
            Opcode::Lsr => "LSR",
            Opcode::Nop => "NOP",
            Opcode::Ora => "ORA",
            Opcode::Pha => "PHA",
            Opcode::Php => "PHP",
            Opcode::Pla => "PLA",
            Opcode::Plp => "PLP",
            Opcode::Rol => "ROL",
            Opcode::Ror => "ROR",
            Opcode::Rti => "RTI",
            Opcode::Rts => "RTS",
            Opcode::Sbc => "SBC",
            Opcode::Sec => "SEC",
            Opcode::Sed => "SED",
            Opcode::Sei => "SEI",
            Opcode::Sta => "STA",
            Opcode::Stx => "STX",
            Opcode::Sty => "STY",
            Opcode::Tax => "TAX",
            Opcode::Tay => "TAY",
            Opcode::Tsx => "TSX",
            Opcode::Txa => "TXA",
            Opcode::Txs => "TXS",
            Opcode::Tya => "TYA",
        }
    }
}

/// The entry of the opcode matrix for `byte`: the operation and addressing mode
/// that it selects, or `None` where the byte is no documented instruction.
pub open spec fn table_entry(byte: u8) -> Option<(Opcode, AddressMode)> {
    match byte {
        0x00 => Some((Opcode::Brk, AddressMode::Implied)),
        0x01 => Some((Opcode::Ora, AddressMode::IndexedIndirect)),
        0x05 => Some((Opcode::Ora, AddressMode::ZeroPage)),
        0x06 => Some((Opcode::Asl, AddressMode::ZeroPage)),
        0x08 => Some((Opcode::Php, AddressMode::Implied)),
        0x09 => Some((Opcode::Ora, AddressMode::Immediate)),
        0x0A => Some((Opcode::Asl, AddressMode::Accumulator)),
        0x0D => Some((Opcode::Ora, AddressMode::Absolute)),
        0x0E => Some((Opcode::Asl, AddressMode::Absolute)),
        0x10 => Some((Opcode::Bpl, AddressMode::Relative)),
        0x11 => Some((Opcode::Ora, AddressMode::IndirectIndexed)),
        0x15 => Some((Opcode::Ora, AddressMode::ZeroPageX)),
        0x16 => Some((Opcode::Asl, AddressMode::ZeroPageX)),
        0x18 => Some((Opcode::Clc, AddressMode::Implied)),
        0x19 => Some((Opcode::Ora, AddressMode::AbsoluteY)),
        0x1D => Some((Opcode::Ora, AddressMode::AbsoluteX)),
        0x1E => Some((Opcode::Asl, AddressMode::AbsoluteX)),
        0x20 => Some((Opcode::Jsr, AddressMode::Absolute)),
        0x21 => Some((Opcode::And, AddressMode::IndexedIndirect)),
        0x24 => Some((Opcode::Bit, AddressMode::ZeroPage)),
        0x25 => Some((Opcode::And, AddressMode::ZeroPage)),
        0x26 => Some((Opcode::Rol, AddressMode::ZeroPage)),
        0x28 => Some((Opcode::Plp, AddressMode::Implied)),
        0x29 => Some((Opcode::And, AddressMode::Immediate)),
        0x2A => Some((Opcode::Rol, AddressMode::Accumulator)),
        0x2C => Some((Opcode::Bit, AddressMode::Absolute)),
        0x2D => Some((Opcode::And, AddressMode::Absolute)),
        0x2E => Some((Opcode::Rol, AddressMode::Absolute)),
        0x30 => Some((Opcode::Bmi, AddressMode::Relative)),
        0x31 => Some((Opcode::And, AddressMode::IndirectIndexed)),
        0x35 => Some((Opcode::And, AddressMode::ZeroPageX)),
        0x36 => Some((Opcode::Rol, AddressMode::ZeroPageX)),
        0x38 => Some((Opcode::Sec, AddressMode::Implied)),
        0x39 => Some((Opcode::And, AddressMode::AbsoluteY)),
        0x3D => Some((Opcode::And, AddressMode::AbsoluteX)),
        0x3E => Some((Opcode::Rol, AddressMode::AbsoluteX)),
        0x40 => Some((Opcode::Rti, AddressMode::Implied)),
        0x41 => Some((Opcode::Eor, AddressMode::IndexedIndirect)),
        0x45 => Some((Opcode::Eor, AddressMode::ZeroPage)),
        0x46 => Some((Opcode::Lsr, AddressMode::ZeroPage)),
        0x48 => Some((Opcode::Pha, AddressMode::Implied)),
        0x49 => Some((Opcode::Eor, AddressMode::Immediate)),
        0x4A => Some((Opcode::Lsr, AddressMode::Accumulator)),
        0x4C => Some((Opcode::Jmp, AddressMode::Absolute)),
        0x4D => Some((Opcode::Eor, AddressMode::Absolute)),
        0x4E => Some((Opcode::Lsr, AddressMode::Absolute)),
        0x50 => Some((Opcode::Bvc, AddressMode::Relative)),
        0x51 => Some((Opcode::Eor, AddressMode::IndirectIndexed)),
        0x55 => Some((Opcode::Eor, AddressMode::ZeroPageX)),
        0x56 => Some((Opcode::Lsr, AddressMode::ZeroPageX)),
        0x58 => Some((Opcode::Cli, AddressMode::Implied)),
        0x59 => Some((Opcode::Eor, AddressMode::AbsoluteY)),
        0x5D => Some((Opcode::Eor, AddressMode::AbsoluteX)),
        0x5E => Some((Opcode::Lsr, AddressMode::AbsoluteX)),
        0x60 => Some((Opcode::Rts, AddressMode::Implied)),
        0x61 => Some((Opcode::Adc, AddressMode::IndexedIndirect)),
        0x65 => Some((Opcode::Adc, AddressMode::ZeroPage)),
        0x66 => Some((Opcode::Ror, AddressMode::ZeroPage)),
        0x68 => Some((Opcode::Pla, AddressMode::Implied)),
        0x69 => Some((Opcode::Adc, AddressMode::Immediate)),
        0x6A => Some((Opcode::Ror, AddressMode::Accumulator)),
        0x6C => Some((Opcode::Jmp, AddressMode::Indirect)),
        0x6D => Some((Opcode::Adc, AddressMode::Absolute)),
        0x6E => Some((Opcode::Ror, AddressMode::Absolute)),
        0x70 => Some((Opcode::Bvs, AddressMode::Relative)),
        0x71 => Some((Opcode::Adc, AddressMode::IndirectIndexed)),
        0x75 => Some((Opcode::Adc, AddressMode::ZeroPageX)),
        0x76 => Some((Opcode::Ror, AddressMode::ZeroPageX)),
        0x78 => Some((Opcode::Sei, AddressMode::Implied)),
        0x79 => Some((Opcode::Adc, AddressMode::AbsoluteY)),
        0x7D => Some((Opcode::Adc, AddressMode::AbsoluteX)),
        0x7E => Some((Opcode::Ror, AddressMode::AbsoluteX)),
        0x81 => Some((Opcode::Sta, AddressMode::IndexedIndirect)),
        0x84 => Some((Opcode::Sty, AddressMode::ZeroPage)),
        0x85 => Some((Opcode::Sta, AddressMode::ZeroPage)),
        0x86 => Some((Opcode::Stx, AddressMode::ZeroPage)),
        0x88 => Some((Opcode::Dey, AddressMode::Implied)),
        0x8A => Some((Opcode::Txa, AddressMode::Implied)),
        0x8C => Some((Opcode::Sty, AddressMode::Absolute)),
        0x8D => Some((Opcode::Sta, AddressMode::Absolute)),
        0x8E => Some((Opcode::Stx, AddressMode::Absolute)),
        0x90 => Some((Opcode::Bcc, AddressMode::Relative)),
        0x91 => Some((Opcode::Sta, AddressMode::IndirectIndexed)),
        0x94 => Some((Opcode::Sty, AddressMode::ZeroPageX)),
        0x95 => Some((Opcode::Sta, AddressMode::ZeroPageX)),
        0x96 => Some((Opcode::Stx, AddressMode::ZeroPageY)),
        0x98 => Some((Opcode::Tya, AddressMode::Implied)),
        0x99 => Some((Opcode::Sta, AddressMode::AbsoluteY)),
        0x9A => Some((Opcode::Txs, AddressMode::Implied)),
        0x9D => Some((Opcode::Sta, AddressMode::AbsoluteX)),
        0xA0 => Some((Opcode::Ldy, AddressMode::Immediate)),
        0xA1 => Some((Opcode::Lda, AddressMode::IndexedIndirect)),
        0xA2 => Some((Opcode::Ldx, AddressMode::Immediate)),
        0xA4 => Some((Opcode::Ldy, AddressMode::ZeroPage)),
        0xA5 => Some((Opcode::Lda, AddressMode::ZeroPage)),
        0xA6 => Some((Opcode::Ldx, AddressMode::ZeroPage)),
        0xA8 => Some((Opcode::Tay, AddressMode::Implied)),
        0xA9 => Some((Opcode::Lda, AddressMode::Immediate)),
        0xAA => Some((Opcode::Tax, AddressMode::Implied)),
        0xAC => Some((Opcode::Ldy, AddressMode::Absolute)),
        0xAD => Some((Opcode::Lda, AddressMode::Absolute)),
        0xAE => Some((Opcode::Ldx, AddressMode::Absolute)),
        0xB0 => Some((Opcode::Bcs, AddressMode::Relative)),
        0xB1 => Some((Opcode::Lda, AddressMode::IndirectIndexed)),
        0xB4 => Some((Opcode::Ldy, AddressMode::ZeroPageX)),
        0xB5 => Some((Opcode::Lda, AddressMode::ZeroPageX)),
        0xB6 => Some((Opcode::Ldx, AddressMode::ZeroPageY)),
        0xB8 => Some((Opcode::Clv, AddressMode::Implied)),
        0xB9 => Some((Opcode::Lda, AddressMode::AbsoluteY)),
        0xBA => Some((Opcode::Tsx, AddressMode::Implied)),
        0xBC => Some((Opcode::Ldy, AddressMode::AbsoluteX)),
        0xBD => Some((Opcode::Lda, AddressMode::AbsoluteX)),
        0xBE => Some((Opcode::Ldx, AddressMode::AbsoluteY)),
        0xC0 => Some((Opcode::Cpy, AddressMode::Immediate)),
        0xC1 => Some((Opcode::Cmp, AddressMode::IndexedIndirect)),
        0xC4 => Some((Opcode::Cpy, AddressMode::ZeroPage)),
        0xC5 => Some((Opcode::Cmp, AddressMode::ZeroPage)),
        0xC6 => Some((Opcode::Dec, AddressMode::ZeroPage)),
        0xC8 => Some((Opcode::Iny, AddressMode::Implied)),
        0xC9 => Some((Opcode::Cmp, AddressMode::Immediate)),
        0xCA => Some((Opcode::Dex, AddressMode::Implied)),
        0xCC => Some((Opcode::Cpy, AddressMode::Absolute)),
        0xCD => Some((Opcode::Cmp, AddressMode::Absolute)),
        0xCE => Some((Opcode::Dec, AddressMode::Absolute)),
        0xD0 => Some((Opcode::Bne, AddressMode::Relative)),
        0xD1 => Some((Opcode::Cmp, AddressMode::IndirectIndexed)),
        0xD5 => Some((Opcode::Cmp, AddressMode::ZeroPageX)),
        0xD6 => Some((Opcode::Dec, AddressMode::ZeroPageX)),
        0xD8 => Some((Opcode::Cld, AddressMode::Implied)),
        0xD9 => Some((Opcode::Cmp, AddressMode::AbsoluteY)),
        0xDD => Some((Opcode::Cmp, AddressMode::AbsoluteX)),
        0xDE => Some((Opcode::Dec, AddressMode::AbsoluteX)),
        0xE0 => Some((Opcode::Cpx, AddressMode::Immediate)),
        0xE1 => Some((Opcode::Sbc, AddressMode::IndexedIndirect)),
        0xE4 => Some((Opcode::Cpx, AddressMode::ZeroPage)),
        0xE5 => Some((Opcode::Sbc, AddressMode::ZeroPage)),
        0xE6 => Some((Opcode::Inc, AddressMode::ZeroPage)),
        0xE8 => Some((Opcode::Inx, AddressMode::Implied)),
        0xE9 => Some((Opcode::Sbc, AddressMode::Immediate)),
        0xEA => Some((Opcode::Nop, AddressMode::Implied)),
        0xEC => Some((Opcode::Cpx, AddressMode::Absolute)),
        0xED => Some((Opcode::Sbc, AddressMode::Absolute)),
        0xEE => Some((Opcode::Inc, AddressMode::Absolute)),
        0xF0 => Some((Opcode::Beq, AddressMode::Relative)),
        0xF1 => Some((Opcode::Sbc, AddressMode::IndirectIndexed)),
        0xF5 => Some((Opcode::Sbc, AddressMode::ZeroPageX)),
        0xF6 => Some((Opcode::Inc, AddressMode::ZeroPageX)),
        0xF8 => Some((Opcode::Sed, AddressMode::Implied)),
        0xF9 => Some((Opcode::Sbc, AddressMode::AbsoluteY)),
        0xFD => Some((Opcode::Sbc, AddressMode::AbsoluteX)),
        0xFE => Some((Opcode::Inc, AddressMode::AbsoluteX)),
        _ => None,
    }
}

/// Looks `byte` up in the opcode matrix.
pub fn lookup(byte: u8) -> (r: Option<(Opcode, AddressMode)>)
    ensures
        r == table_entry(byte),
{
    match byte {
        0x00 => Some((Opcode::Brk, AddressMode::Implied)),
        0x01 => Some((Opcode::Ora, AddressMode::IndexedIndirect)),
        0x05 => Some((Opcode::Ora, AddressMode::ZeroPage)),
        0x06 => Some((Opcode::Asl, AddressMode::ZeroPage)),
        0x08 => Some((Opcode::Php, AddressMode::Implied)),
        0x09 => Some((Opcode::Ora, AddressMode::Immediate)),
        0x0A => Some((Opcode::Asl, AddressMode::Accumulator)),
        0x0D => Some((Opcode::Ora, AddressMode::Absolute)),
        0x0E => Some((Opcode::Asl, AddressMode::Absolute)),
        0x10 => Some((Opcode::Bpl, AddressMode::Relative)),
        0x11 => Some((Opcode::Ora, AddressMode::IndirectIndexed)),
        0x15 => Some((Opcode::Ora, AddressMode::ZeroPageX)),
        0x16 => Some((Opcode::Asl, AddressMode::ZeroPageX)),
        0x18 => Some((Opcode::Clc, AddressMode::Implied)),
        0x19 => Some((Opcode::Ora, AddressMode::AbsoluteY)),
        0x1D => Some((Opcode::Ora, AddressMode::AbsoluteX)),
        0x1E => Some((Opcode::Asl, AddressMode::AbsoluteX)),
        0x20 => Some((Opcode::Jsr, AddressMode::Absolute)),
        0x21 => Some((Opcode::And, AddressMode::IndexedIndirect)),
        0x24 => Some((Opcode::Bit, AddressMode::ZeroPage)),
        0x25 => Some((Opcode::And, AddressMode::ZeroPage)),
        0x26 => Some((Opcode::Rol, AddressMode::ZeroPage)),
        0x28 => Some((Opcode::Plp, AddressMode::Implied)),
        0x29 => Some((Opcode::And, AddressMode::Immediate)),
        0x2A => Some((Opcode::Rol, AddressMode::Accumulator)),
        0x2C => Some((Opcode::Bit, AddressMode::Absolute)),
        0x2D => Some((Opcode::And, AddressMode::Absolute)),
        0x2E => Some((Opcode::Rol, AddressMode::Absolute)),
        0x30 => Some((Opcode::Bmi, AddressMode::Relative)),
        0x31 => Some((Opcode::And, AddressMode::IndirectIndexed)),
        0x35 => Some((Opcode::And, AddressMode::ZeroPageX)),
        0x36 => Some((Opcode::Rol, AddressMode::ZeroPageX)),
        0x38 => Some((Opcode::Sec, AddressMode::Implied)),
        0x39 => Some((Opcode::And, AddressMode::AbsoluteY)),
        0x3D => Some((Opcode::And, AddressMode::AbsoluteX)),
        0x3E => Some((Opcode::Rol, AddressMode::AbsoluteX)),
        0x40 => Some((Opcode::Rti, AddressMode::Implied)),
        0x41 => Some((Opcode::Eor, AddressMode::IndexedIndirect)),
        0x45 => Some((Opcode::Eor, AddressMode::ZeroPage)),
        0x46 => Some((Opcode::Lsr, AddressMode::ZeroPage)),
        0x48 => Some((Opcode::Pha, AddressMode::Implied)),
        0x49 => Some((Opcode::Eor, AddressMode::Immediate)),
        0x4A => Some((Opcode::Lsr, AddressMode::Accumulator)),
        0x4C => Some((Opcode::Jmp, AddressMode::Absolute)),
        0x4D => Some((Opcode::Eor, AddressMode::Absolute)),
        0x4E => Some((Opcode::Lsr, AddressMode::Absolute)),
        0x50 => Some((Opcode::Bvc, AddressMode::Relative)),
        0x51 => Some((Opcode::Eor, AddressMode::IndirectIndexed)),
        0x55 => Some((Opcode::Eor, AddressMode::ZeroPageX)),
        0x56 => Some((Opcode::Lsr, AddressMode::ZeroPageX)),
        0x58 => Some((Opcode::Cli, AddressMode::Implied)),
        0x59 => Some((Opcode::Eor, AddressMode::AbsoluteY)),
        0x5D => Some((Opcode::Eor, AddressMode::AbsoluteX)),
        0x5E => Some((Opcode::Lsr, AddressMode::AbsoluteX)),
        0x60 => Some((Opcode::Rts, AddressMode::Implied)),
        0x61 => Some((Opcode::Adc, AddressMode::IndexedIndirect)),
        0x65 => Some((Opcode::Adc, AddressMode::ZeroPage)),
        0x66 => Some((Opcode::Ror, AddressMode::ZeroPage)),
        0x68 => Some((Opcode::Pla, AddressMode::Implied)),
        0x69 => Some((Opcode::Adc, AddressMode::Immediate)),
        0x6A => Some((Opcode::Ror, AddressMode::Accumulator)),
        0x6C => Some((Opcode::Jmp, AddressMode::Indirect)),
        0x6D => Some((Opcode::Adc, AddressMode::Absolute)),
        0x6E => Some((Opcode::Ror, AddressMode::Absolute)),
        0x70 => Some((Opcode::Bvs, AddressMode::Relative)),
        0x71 => Some((Opcode::Adc, AddressMode::IndirectIndexed)),
        0x75 => Some((Opcode::Adc, AddressMode::ZeroPageX)),
        0x76 => Some((Opcode::Ror, AddressMode::ZeroPageX)),
        0x78 => Some((Opcode::Sei, AddressMode::Implied)),
        0x79 => Some((Opcode::Adc, AddressMode::AbsoluteY)),
        0x7D => Some((Opcode::Adc, AddressMode::AbsoluteX)),
        0x7E => Some((Opcode::Ror, AddressMode::AbsoluteX)),
        0x81 => Some((Opcode::Sta, AddressMode::IndexedIndirect)),
        0x84 => Some((Opcode::Sty, AddressMode::ZeroPage)),
        0x85 => Some((Opcode::Sta, AddressMode::ZeroPage)),
        0x86 => Some((Opcode::Stx, AddressMode::ZeroPage)),
        0x88 => Some((Opcode::Dey, AddressMode::Implied)),
        0x8A => Some((Opcode::Txa, AddressMode::Implied)),
        0x8C => Some((Opcode::Sty, AddressMode::Absolute)),
        0x8D => Some((Opcode::Sta, AddressMode::Absolute)),
        0x8E => Some((Opcode::Stx, AddressMode::Absolute)),
        0x90 => Some((Opcode::Bcc, AddressMode::Relative)),
        0x91 => Some((Opcode::Sta, AddressMode::IndirectIndexed)),
        0x94 => Some((Opcode::Sty, AddressMode::ZeroPageX)),
        0x95 => Some((Opcode::Sta, AddressMode::ZeroPageX)),
        0x96 => Some((Opcode::Stx, AddressMode::ZeroPageY)),
        0x98 => Some((Opcode::Tya, AddressMode::Implied)),
        0x99 => Some((Opcode::Sta, AddressMode::AbsoluteY)),
        0x9A => Some((Opcode::Txs, AddressMode::Implied)),
        0x9D => Some((Opcode::Sta, AddressMode::AbsoluteX)),
        0xA0 => Some((Opcode::Ldy, AddressMode::Immediate)),
        0xA1 => Some((Opcode::Lda, AddressMode::IndexedIndirect)),
        0xA2 => Some((Opcode::Ldx, AddressMode::Immediate)),
        0xA4 => Some((Opcode::Ldy, AddressMode::ZeroPage)),
        0xA5 => Some((Opcode::Lda, AddressMode::ZeroPage)),
        0xA6 => Some((Opcode::Ldx, AddressMode::ZeroPage)),
        0xA8 => Some((Opcode::Tay, AddressMode::Implied)),
        0xA9 => Some((Opcode::Lda, AddressMode::Immediate)),
        0xAA => Some((Opcode::Tax, AddressMode::Implied)),
        0xAC => Some((Opcode::Ldy, AddressMode::Absolute)),
        0xAD => Some((Opcode::Lda, AddressMode::Absolute)),
        0xAE => Some((Opcode::Ldx, AddressMode::Absolute)),
        0xB0 => Some((Opcode::Bcs, AddressMode::Relative)),
        0xB1 => Some((Opcode::Lda, AddressMode::IndirectIndexed)),
        0xB4 => Some((Opcode::Ldy, AddressMode::ZeroPageX)),
        0xB5 => Some((Opcode::Lda, AddressMode::ZeroPageX)),
        0xB6 => Some((Opcode::Ldx, AddressMode::ZeroPageY)),
        0xB8 => Some((Opcode::Clv, AddressMode::Implied)),
        0xB9 => Some((Opcode::Lda, AddressMode::AbsoluteY)),
        0xBA => Some((Opcode::Tsx, AddressMode::Implied)),
        0xBC => Some((Opcode::Ldy, AddressMode::AbsoluteX)),
        0xBD => Some((Opcode::Lda, AddressMode::AbsoluteX)),
        0xBE => Some((Opcode::Ldx, AddressMode::AbsoluteY)),
        0xC0 => Some((Opcode::Cpy, AddressMode::Immediate)),
        0xC1 => Some((Opcode::Cmp, AddressMode::IndexedIndirect)),
        0xC4 => Some((Opcode::Cpy, AddressMode::ZeroPage)),
        0xC5 => Some((Opcode::Cmp, AddressMode::ZeroPage)),
        0xC6 => Some((Opcode::Dec, AddressMode::ZeroPage)),
        0xC8 => Some((Opcode::Iny, AddressMode::Implied)),
        0xC9 => Some((Opcode::Cmp, AddressMode::Immediate)),
        0xCA => Some((Opcode::Dex, AddressMode::Implied)),
        0xCC => Some((Opcode::Cpy, AddressMode::Absolute)),
        0xCD => Some((Opcode::Cmp, AddressMode::Absolute)),
        0xCE => Some((Opcode::Dec, AddressMode::Absolute)),
        0xD0 => Some((Opcode::Bne, AddressMode::Relative)),
        0xD1 => Some((Opcode::Cmp, AddressMode::IndirectIndexed)),
        0xD5 => Some((Opcode::Cmp, AddressMode::ZeroPageX)),
        0xD6 => Some((Opcode::Dec, AddressMode::ZeroPageX)),
        0xD8 => Some((Opcode::Cld, AddressMode::Implied)),
        0xD9 => Some((Opcode::Cmp, AddressMode::AbsoluteY)),
        0xDD => Some((Opcode::Cmp, AddressMode::AbsoluteX)),
        0xDE => Some((Opcode::Dec, AddressMode::AbsoluteX)),
        0xE0 => Some((Opcode::Cpx, AddressMode::Immediate)),
        0xE1 => Some((Opcode::Sbc, AddressMode::IndexedIndirect)),
        0xE4 => Some((Opcode::Cpx, AddressMode::ZeroPage)),
        0xE5 => Some((Opcode::Sbc, AddressMode::ZeroPage)),
        0xE6 => Some((Opcode::Inc, AddressMode::ZeroPage)),
        0xE8 => Some((Opcode::Inx, AddressMode::Implied)),
        0xE9 => Some((Opcode::Sbc, AddressMode::Immediate)),
        0xEA => Some((Opcode::Nop, AddressMode::Implied)),
        0xEC => Some((Opcode::Cpx, AddressMode::Absolute)),
        0xED => Some((Opcode::Sbc, AddressMode::Absolute)),
        0xEE => Some((Opcode::Inc, AddressMode::Absolute)),
        0xF0 => Some((Opcode::Beq, AddressMode::Relative)),
        0xF1 => Some((Opcode::Sbc, AddressMode::IndirectIndexed)),
        0xF5 => Some((Opcode::Sbc, AddressMode::ZeroPageX)),
        0xF6 => Some((Opcode::Inc, AddressMode::ZeroPageX)),
        0xF8 => Some((Opcode::Sed, AddressMode::Implied)),
        0xF9 => Some((Opcode::Sbc, AddressMode::AbsoluteY)),
        0xFD => Some((Opcode::Sbc, AddressMode::AbsoluteX)),
        0xFE => Some((Opcode::Inc, AddressMode::AbsoluteX)),
        _ => None,
    }
}

} // verus!
