//! The two checksums carried in a cartridge image.
//!
//! The header checksum is an 8-bit running difference over the header
//! fields at offsets 0x134..=0x14C; the boot sequence validates it before
//! executing the program.  The global checksum is a 16-bit wrapping sum
//! over the whole image except the two bytes that declare it (0x14E-0x14F);
//! it is computed but never enforced by the hardware.

use vstd::prelude::*;

verus! {

/// First offset covered by the header checksum.
pub const HEADER_CHECKSUM_START: usize = 0x134;

/// One past the last offset covered by the header checksum (0x134..=0x14C).
pub const HEADER_CHECKSUM_END: usize = 0x14D;

/// Header checksum of the bytes at offsets `i..HEADER_CHECKSUM_END`,
/// continuing from the accumulator `acc`; each step is
/// `acc = acc - byte - 1` with 8-bit wraparound.
pub open spec fn header_checksum_from(bytes: Seq<u8>, i: int, acc: u8) -> u8
    decreases HEADER_CHECKSUM_END - i,
{
    if i < HEADER_CHECKSUM_START || i >= HEADER_CHECKSUM_END {
        acc
    } else {
        header_checksum_from(bytes, i + 1, ((acc - bytes[i] - 1) % 256) as u8)
    }
}

/// Header checksum of a whole image: the running difference over
/// offsets 0x134..=0x14C, starting from 0.
pub open spec fn header_checksum_spec(bytes: Seq<u8>) -> u8
    recommends
        bytes.len() >= HEADER_CHECKSUM_END,
{
    header_checksum_from(bytes, HEADER_CHECKSUM_START as int, 0)
}

/// Global checksum of the bytes at offsets `i..bytes.len()`, continuing
/// from the accumulator `acc`; every byte is added with 16-bit wraparound,
/// except the two declared-checksum bytes at 0x14E-0x14F.
pub open spec fn global_checksum_from(bytes: Seq<u8>, i: int, acc: u16) -> u16
    decreases bytes.len() - i,
{
    if i < 0 || i >= bytes.len() {
        acc
    } else if i == 0x14E || i == 0x14F {
        global_checksum_from(bytes, i + 1, acc)
    } else {
        global_checksum_from(bytes, i + 1, ((acc + bytes[i]) % 0x10000) as u16)
    }
}

/// Global checksum of a whole image: the 16-bit wrapping sum of every
/// byte except the two at offsets 0x14E-0x14F.
pub open spec fn global_checksum_spec(bytes: Seq<u8>) -> u16 {
    global_checksum_from(bytes, 0, 0)
}

/// Computes the header checksum of an image.
pub fn calculate_header_checksum(buf: &Vec<u8>) -> (r: u8)
    requires
        buf@.len() >= HEADER_CHECKSUM_END,
    ensures
        r == header_checksum_spec(buf@),
{
    let mut acc: u8 = 0;
    let mut i: usize = HEADER_CHECKSUM_START;
    while i < HEADER_CHECKSUM_END
        invariant
            HEADER_CHECKSUM_START <= i <= HEADER_CHECKSUM_END,
            buf@.len() >= HEADER_CHECKSUM_END,
            header_checksum_spec(buf@) == header_checksum_from(buf@, i as int, acc),
        decreases HEADER_CHECKSUM_END - i,
    {
        let b = buf[i];
        acc = acc.wrapping_sub(b).wrapping_sub(1);
        i = i + 1;
    }
    acc
}

/// Computes the global checksum of an image of any length.
pub fn calculate_global_checksum(buf: &Vec<u8>) -> (r: u16)
    ensures
        r == global_checksum_spec(buf@),
{
    let mut acc: u16 = 0;
    let mut i: usize = 0;
    while i < buf.len()
        invariant
            i <= buf@.len(),
            global_checksum_spec(buf@) == global_checksum_from(buf@, i as int, acc),
        decreases buf@.len() - i,
    {
        if !(i == 0x14E || i == 0x14F) {
            let b = buf[i];
            acc = acc.wrapping_add(b as u16);
        }
        i = i + 1;
    }
    acc
}

} // verus!
