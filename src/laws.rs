//! What holds of decoding over every input.
use vstd::prelude::*;

use crate::instruction::decoded;
use crate::opcode_table::table_entry;

verus! {

/// A decoded instruction agrees with the opcode matrix: its operation is the
/// one its opcode byte selects, its operand's tag is the addressing mode that
/// the byte selects, and its size is that mode's size, between one and three
/// bytes and no more than the window holds.
pub proof fn lemma_decoded_follows_table(bytes: Seq<u8>)
    ensures
        decoded(bytes) matches Some((opcode, operand, size)) ==> {
            &&& table_entry(bytes[0]) == Some((opcode, operand.spec_mode()))
            &&& size == operand.spec_mode().spec_size()
            &&& 1 <= size <= 3
            &&& size <= bytes.len()
        },
{
}

/// Every documented opcode decodes, once enough bytes follow it, and the
/// instruction takes exactly as many bytes as its addressing mode names: one,
/// two or three.
pub proof fn lemma_defined_opcode_decodes(opcode: u8, padding: Seq<u8>)
    requires
        table_entry(opcode) is Some,
        padding.len() >= 2,
    ensures
        decoded(seq![opcode] + padding) matches Some((_, _, size))
            && size == table_entry(opcode).unwrap().1.spec_size() && 1 <= size <= 3,
{
    let bytes = seq![opcode] + padding;
    assert(bytes[0] == opcode);
}

/// A byte that is no documented opcode never decodes, whatever follows it.
pub proof fn lemma_undefined_opcode_rejected(opcode: u8, padding: Seq<u8>)
    requires
        table_entry(opcode) is None,
    ensures
        decoded(seq![opcode] + padding) is None,
{
    let bytes = seq![opcode] + padding;
    assert(bytes[0] == opcode);
}

/// For a documented opcode whose addressing mode needs `n` bytes, a shorter
/// window does not decode, and a window of `n` bytes or more decodes to what
/// its first `n` bytes alone give.
pub proof fn lemma_truncation(bytes: Seq<u8>)
    requires
        bytes.len() > 0,
        table_entry(bytes[0]) is Some,
    ensures
        ({
            let n = table_entry(bytes[0]).unwrap().1.spec_size();
            &&& bytes.len() < n ==> decoded(bytes) is None
            &&& bytes.len() >= n ==> decoded(bytes) is Some && decoded(bytes) == decoded(
                bytes.subrange(0, n as int),
            )
        }),
{
    let n = table_entry(bytes[0]).unwrap().1.spec_size();
    if bytes.len() >= n {
        let prefix = bytes.subrange(0, n as int);
        assert(prefix[0] == bytes[0]);
        assert(n >= 1);
        if n >= 2 {
            assert(prefix[1] == bytes[1]);
        }
        if n >= 3 {
            assert(prefix[2] == bytes[2]);
        }
    }
}

} // verus!
