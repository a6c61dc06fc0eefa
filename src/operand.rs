//! Decoded operands and their assembly text.
use vstd::prelude::*;
use vstd::string::StringExecFns;

use crate::hex::{hex2, hex4, push_hex2, push_hex4};
use crate::opcode_table::AddressMode;

verus! {

/// An instruction's operand, tagged by addressing mode and carrying its value
/// at the width and signedness that the mode gives it.
#[derive(Clone, Copy, Debug, PartialEq, Eq, Hash, Structural)]
pub enum Operand {
    /// A 16-bit address.
    Absolute(u16),
    /// A 16-bit address indexed by X.
    AbsoluteX(u16),
    /// A 16-bit address indexed by Y.
    AbsoluteY(u16),
    /// The accumulator.
    Accumulator,
    /// An 8-bit literal.
    Immediate(u8),
    /// No operand.
    Implied,
    /// A zero-page pointer, indexed by X before it is read.
    IndexedIndirect(u8),
    /// A 16-bit pointer.
    Indirect(u16),
    /// A zero-page pointer, indexed by Y after it is read.
    IndirectIndexed(u8),
    /// A signed branch offset.
    Relative(i8),
    /// A zero-page address.
    ZeroPage(u8),
    /// A zero-page address indexed by X.
    ZeroPageX(u8),
    /// A zero-page address indexed by Y.
    ZeroPageY(u8),
}

impl Operand {
    /// The addressing mode that this operand's tag stands for.
    pub open spec fn spec_mode(self) -> AddressMode {
        match self {
            Operand::Absolute(_) => AddressMode::Absolute,
            Operand::AbsoluteX(_) => AddressMode::AbsoluteX,
            Operand::AbsoluteY(_) => AddressMode::AbsoluteY,
            Operand::Accumulator => AddressMode::Accumulator,
            Operand::Immediate(_) => AddressMode::Immediate,
            Operand::Implied => AddressMode::Implied,
            Operand::IndexedIndirect(_) => AddressMode::IndexedIndirect,
            Operand::Indirect(_) => AddressMode::Indirect,
            Operand::IndirectIndexed(_) => AddressMode::IndirectIndexed,
            Operand::Relative(_) => AddressMode::Relative,
            Operand::ZeroPage(_) => AddressMode::ZeroPage,
            Operand::ZeroPageX(_) => AddressMode::ZeroPageX,
            Operand::ZeroPageY(_) => AddressMode::ZeroPageY,
        }
    }

    /// The operand in standard assembly notation. Indexed absolute and
    /// zero-page forms print their address only; a branch offset prints as
    /// its two's-complement byte.
    pub open spec fn spec_text(self) -> Seq<char> {
        match self {
            Operand::Absolute(v) => seq!['$'] + hex4(v),
            Operand::AbsoluteX(v) => seq!['$'] + hex4(v),
            Operand::AbsoluteY(v) => seq!['$'] + hex4(v),
            Operand::Accumulator => seq!['A'],
            Operand::Immediate(v) => seq!['#', '$'] + hex2(v),
            Operand::Implied => Seq::empty(),
            Operand::IndexedIndirect(v) => seq!['(', '$'] + hex2(v) + seq![',', 'X', ')'],
            Operand::Indirect(v) => seq!['(', '$'] + hex4(v) + seq![')'],
            Operand::IndirectIndexed(v) => seq!['(', '$'] + hex2(v) + seq![')', ',', 'Y'],
            Operand::Relative(v) => seq!['$'] + hex2(v as u8),
            Operand::ZeroPage(v) => seq!['$'] + hex2(v),
            Operand::ZeroPageX(v) => seq!['$'] + hex2(v),
            Operand::ZeroPageY(v) => seq!['$'] + hex2(v),
        }
    }

    /// The operand in standard assembly notation.
    pub fn to_string(&self) -> (r: String)
        ensures
            r@ == self.spec_text(),
    {
        proof {
            reveal_strlit("$");
            reveal_strlit("A");
            reveal_strlit("#$");
            reveal_strlit("($");
            reveal_strlit(",X)");
            reveal_strlit(")");
            reveal_strlit("),Y");
        }
        let mut s = String::new();
        match *self {
            Operand::Absolute(v) | Operand::AbsoluteX(v) | Operand::AbsoluteY(v) => {
                s.append("$");
                push_hex4(&mut s, v);
            },
            Operand::Accumulator => {
                s.append("A");
            },
            Operand::Immediate(v) => {
                s.append("#$");
                push_hex2(&mut s, v);
            },
            Operand::Implied => {},
            Operand::IndexedIndirect(v) => {
                s.append("($");
                push_hex2(&mut s, v);
                s.append(",X)");
            },
            Operand::Indirect(v) => {
                s.append("($");
                push_hex4(&mut s, v);
                s.append(")");
            },
            Operand::IndirectIndexed(v) => {
                s.append("($");
                push_hex2(&mut s, v);
                s.append("),Y");
            },
            Operand::Relative(v) => {
                s.append("$");
                push_hex2(&mut s, v as u8);
            },
            Operand::ZeroPage(v) | Operand::ZeroPageX(v) | Operand::ZeroPageY(v) => {
                s.append("$");
                push_hex2(&mut s, v);
            },
        }
        assert(s@ =~= self.spec_text());
        s
    }
}

} // verus!
