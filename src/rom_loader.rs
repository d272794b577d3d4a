//! Recognising a cartridge image.
use vstd::prelude::*;

verus! {

/// An iNES image starts with the bytes `N`, `E`, `S`, `0x1A`.
pub open spec fn has_ines_magic(bytes: Seq<u8>) -> bool {
    &&& bytes.len() >= 4
    &&& bytes[0] == 0x4E
    &&& bytes[1] == 0x45
    &&& bytes[2] == 0x53
    &&& bytes[3] == 0x1A
}

/// Whether `bytes` starts with the iNES magic number.
pub fn is_ines(bytes: &[u8]) -> (r: bool)
    ensures
        r == has_ines_magic(bytes@),
{
    bytes.len() >= 4 && bytes[0] == 0x4E && bytes[1] == 0x45 && bytes[2] == 0x53 && bytes[3] == 0x1A
}

} // verus!
