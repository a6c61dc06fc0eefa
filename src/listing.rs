//! Decoding a whole byte buffer, one instruction after another.
use vstd::prelude::*;

use crate::instruction::{decode_at, decoded, Instruction};

verus! {

/// The offset just past the last instruction of `listing`, or 0 where it is
/// empty.
pub open spec fn listing_end(listing: Seq<(usize, Instruction)>) -> int {
    if listing.len() == 0 {
        0
    } else {
        listing.last().0 + listing.last().1@.2
    }
}

/// Whether `listing` is what decoding `bytes` from offset 0 gives, where each
/// instruction starts where the one before it ends.
pub open spec fn is_listing_of(bytes: Seq<u8>, listing: Seq<(usize, Instruction)>) -> bool {
    &&& listing.len() > 0 ==> listing[0].0 == 0
    &&& forall|k: int|
        0 < k < listing.len() ==> #[trigger] listing[k].0 == listing[k - 1].0 + listing[k
            - 1].1@.2
    &&& forall|k: int|
        0 <= k < listing.len() ==> listing[k].0 < bytes.len() && decoded(
            bytes.subrange(#[trigger] listing[k].0 as int, bytes.len() as int),
        ) == Some(listing[k].1@)
}

/// Decodes `buf` from offset 0, each instruction starting where the one
/// before it ends, and returns each instruction with its offset. Stops where
/// the bytes run out or where no instruction can be decoded.
pub fn decode_all(buf: &[u8]) -> (r: Vec<(usize, Instruction)>)
    ensures
        is_listing_of(buf@, r@),
        listing_end(r@) <= buf@.len(),
        decoded(buf@.subrange(listing_end(r@), buf@.len() as int)) is None,
{
    let mut out: Vec<(usize, Instruction)> = Vec::new();
    let mut offset: usize = 0;
    loop
        invariant
            offset <= buf.len(),
            offset == listing_end(out@),
            is_listing_of(buf@, out@),
        ensures
            offset <= buf.len(),
            offset == listing_end(out@),
            is_listing_of(buf@, out@),
            decoded(buf@.subrange(offset as int, buf@.len() as int)) is None,
        decreases buf.len() - offset,
    {
        match decode_at(buf, offset) {
            None => {
                break;
            },
            Some(instruction) => {
                let ghost rest = buf@.subrange(offset as int, buf@.len() as int);
                proof {
                    crate::laws::lemma_decoded_follows_table(rest);
                }
                let size = instruction.size();
                let ghost before = out@;
                out.push((offset, instruction));
                assert(out@ == before.push((offset, instruction)));
                offset = offset + size;
            },
        }
    }
    out
}

} // verus!
