//! Decoding one instruction from a byte window, and its assembly text.
use vstd::prelude::*;
use vstd::string::StringExecFns;

use crate::opcode_table::{lookup, table_entry, AddressMode, Opcode};
use crate::operand::Operand;

verus! {

/// A decoded instruction: its operation, its operand, and how many bytes it
/// takes, opcode included.
#[derive(Clone, Copy, Debug, PartialEq, Eq, Hash, Structural)]
pub struct Instruction {
    opcode: Opcode,
    operand: Operand,
    size: usize,
}

impl View for Instruction {
    /// Operation, operand and size in bytes.
    type V = (Opcode, Operand, nat);

    closed spec fn view(&self) -> (Opcode, Operand, nat) {
        (self.opcode, self.operand, self.size as nat)
    }
}

/// Whether an operation, an operand and a size belong together: some entry of
/// the opcode matrix pairs the operation with the operand's addressing mode,
/// and the size is that mode's size.
pub open spec fn is_consistent(opcode: Opcode, operand: Operand, size: nat) -> bool {
    &&& exists|byte: u8| table_entry(byte) == Some((opcode, operand.spec_mode()))
    &&& size == operand.spec_mode().spec_size()
}

/// The 16-bit operand that follows an opcode: the first byte after the
/// opcode is the high byte, the second the low byte.
pub open spec fn word_operand(bytes: Seq<u8>) -> u16 {
    (bytes[1] as int * 256 + bytes[2] as int) as u16
}

/// The operand that the bytes after the opcode give in `mode`.
pub open spec fn operand_of(mode: AddressMode, bytes: Seq<u8>) -> Operand {
    match mode {
        AddressMode::Absolute => Operand::Absolute(word_operand(bytes)),
        AddressMode::AbsoluteX => Operand::AbsoluteX(word_operand(bytes)),
        AddressMode::AbsoluteY => Operand::AbsoluteY(word_operand(bytes)),
        AddressMode::Accumulator => Operand::Accumulator,
        AddressMode::Immediate => Operand::Immediate(bytes[1]),
        AddressMode::Implied => Operand::Implied,
        AddressMode::IndexedIndirect => Operand::IndexedIndirect(bytes[1]),
        AddressMode::Indirect => Operand::Indirect(word_operand(bytes)),
        AddressMode::IndirectIndexed => Operand::IndirectIndexed(bytes[1]),
        AddressMode::Relative => Operand::Relative(bytes[1] as i8),
        AddressMode::ZeroPage => Operand::ZeroPage(bytes[1]),
        AddressMode::ZeroPageX => Operand::ZeroPageX(bytes[1]),
        AddressMode::ZeroPageY => Operand::ZeroPageY(bytes[1]),
    }
}

/// The instruction at the start of `bytes`: `None` where the window is empty,
/// where its first byte is no documented opcode, or where it is shorter than
/// the opcode's addressing mode needs.
pub open spec fn decoded(bytes: Seq<u8>) -> Option<(Opcode, Operand, nat)> {
    if bytes.len() == 0 {
        None
    } else {
        match table_entry(bytes[0]) {
            None => None,
            Some((opcode, mode)) => if bytes.len() < mode.spec_size() {
                None
            } else {
                Some((opcode, operand_of(mode, bytes), mode.spec_size()))
            },
        }
    }
}

/// The assembly text of an instruction: the mnemonic alone for an implied
/// operand, else the mnemonic, one space and the operand's text.
pub open spec fn instruction_text(opcode: Opcode, operand: Operand) -> Seq<char> {
    if operand is Implied {
        opcode.spec_mnemonic()
    } else {
        opcode.spec_mnemonic() + seq![' '] + operand.spec_text()
    }
}

impl Instruction {
    /// Every instruction is one that the opcode matrix describes.
    #[verifier::type_invariant]
    spec fn consistent(self) -> bool {
        is_consistent(self.opcode, self.operand, self.size as nat)
    }

    fn new(opcode: Opcode, operand: Operand, size: usize) -> (r: Instruction)
        requires
            is_consistent(opcode, operand, size as nat),
        ensures
            r@ == (opcode, operand, size as nat),
    {
        Instruction { opcode: opcode, operand: operand, size: size }
    }

    /// The operation.
    pub fn opcode(&self) -> (r: &Opcode)
        ensures
            *r == self@.0,
    {
        &self.opcode
    }

    /// The operand.
    pub fn operand(&self) -> (r: &Operand)
        ensures
            *r == self@.1,
    {
        &self.operand
    }

    /// The number of bytes the instruction takes, opcode included: one, two
    /// or three, as its operand's addressing mode gives.
    pub fn size(&self) -> (r: usize)
        ensures
            r == self@.2,
            is_consistent(self@.0, self@.1, self@.2),
            1 <= r <= 3,
    {
        proof {
            use_type_invariant(self);
        }
        self.size
    }

    /// The instruction in standard assembly notation.
    pub fn to_string(&self) -> (r: String)
        ensures
            r@ == instruction_text(self@.0, self@.1),
    {
        let mut s = String::from_str(self.opcode.mnemonic());
        match self.operand {
            Operand::Implied => {},
            _ => {
                proof {
                    reveal_strlit(" ");
                }
                s.append(" ");
                let text = self.operand.to_string();
                s.append(text.as_str());
            },
        }
        s
    }
}

/// The 16-bit operand after the opcode at `pos`.
fn word_at(buf: &[u8], pos: usize) -> (r: u16)
    requires
        pos + 2 < buf.len(),
    ensures
        r == word_operand(buf@.subrange(pos as int, buf@.len() as int)),
{
    let hi = buf[pos + 1];
    let lo = buf[pos + 2];
    assert(((hi as u16) << 8u16) | (lo as u16) == (hi as u16) * 256 + (lo as u16)) by (bit_vector);
    ((hi as u16) << 8u16) | (lo as u16)
}

/// Decodes the instruction that starts at `pos` in `buf`.
pub(crate) fn decode_at(buf: &[u8], pos: usize) -> (r: Option<Instruction>)
    requires
        pos <= buf@.len(),
    ensures
        r is None <==> decoded(buf@.subrange(pos as int, buf@.len() as int)) is None,
        r matches Some(i) ==> decoded(buf@.subrange(pos as int, buf@.len() as int)) == Some(i@),
{
    let ghost rest = buf@.subrange(pos as int, buf@.len() as int);
    if pos >= buf.len() {
        return None;
    }
    assert(rest[0] == buf@[pos as int]);
    match lookup(buf[pos]) {
        None => None,
        Some((opcode, mode)) => {
            let size = mode.size();
            if buf.len() - pos < size {
                return None;
            }
            let operand = match mode {
                AddressMode::Absolute => Operand::Absolute(word_at(buf, pos)),
                AddressMode::AbsoluteX => Operand::AbsoluteX(word_at(buf, pos)),
                AddressMode::AbsoluteY => Operand::AbsoluteY(word_at(buf, pos)),
                AddressMode::Accumulator => Operand::Accumulator,
                AddressMode::Immediate => Operand::Immediate(buf[pos + 1]),
                AddressMode::Implied => Operand::Implied,
                AddressMode::IndexedIndirect => Operand::IndexedIndirect(buf[pos + 1]),
                AddressMode::Indirect => Operand::Indirect(word_at(buf, pos)),
                AddressMode::IndirectIndexed => Operand::IndirectIndexed(buf[pos + 1]),
                AddressMode::Relative => Operand::Relative(buf[pos + 1] as i8),
                AddressMode::ZeroPage => Operand::ZeroPage(buf[pos + 1]),
                AddressMode::ZeroPageX => Operand::ZeroPageX(buf[pos + 1]),
                AddressMode::ZeroPageY => Operand::ZeroPageY(buf[pos + 1]),
            };
            assert(operand == operand_of(mode, rest));
            assert(table_entry(buf@[pos as int]) == Some((opcode, operand.spec_mode())));
            Some(Instruction::new(opcode, operand, size))
        },
    }
}

/// Decodes the instruction at the start of `buf`. Returns `None` where `buf`
/// is empty, where its first byte is no documented opcode, or where it holds
/// fewer bytes than the opcode's addressing mode needs.
pub fn decode(buf: &[u8]) -> (r: Option<Instruction>)
    ensures
        r is None <==> decoded(buf@) is None,
        r matches Some(i) ==> decoded(buf@) == Some(i@),
{
    assert(buf@.subrange(0, buf@.len() as int) =~= buf@);
    decode_at(buf, 0)
}

} // verus!
