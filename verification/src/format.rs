//! Replay format generations, told apart by a few raw bytes.

use vstd::prelude::*;

verus! {

/// Replay file format generation, detected from raw bytes.
#[derive(Debug, Clone, Copy, PartialEq, Eq, Structural)]
pub enum Format {
    /// Pre-1.18: PKWare DCL compressed sections.
    Legacy,
    /// 1.18 to 1.20: zlib compressed sections.
    Modern,
    /// 1.21+ (Remastered): zlib compressed, extra sections.
    Modern121,
}

/// Magic bytes of a modern replay (after decompressing section 0): `seRS`.
pub const MAGIC_MODERN: [u8; 4] = [0x73u8, 0x65u8, 0x52u8, 0x53u8];

/// Magic bytes of a legacy replay: `reRS`.
pub const MAGIC_LEGACY: [u8; 4] = [0x72u8, 0x65u8, 0x52u8, 0x53u8];

/// The format that the first raw bytes of a replay announce.
pub open spec fn spec_detect(data: Seq<u8>) -> Format {
    if data.len() >= 13 && data[12] == 0x73 {
        Format::Modern121
    } else if data.len() >= 29 && data[28] == 0x78 {
        Format::Modern
    } else {
        Format::Legacy
    }
}

/// Detect the replay format from the first raw bytes of the file.
///
/// Byte 12 equal to `s` means 1.21+; otherwise byte 28 equal to the zlib
/// magic 0x78 means 1.18 to 1.20; anything else is legacy.
pub fn detect(data: &[u8]) -> (f: Format)
    ensures
        f == spec_detect(data@),
{
    if data.len() >= 13 && data[12] == 0x73 {
        Format::Modern121
    } else if data.len() >= 29 && data[28] == 0x78 {
        Format::Modern
    } else {
        Format::Legacy
    }
}

} // verus!
