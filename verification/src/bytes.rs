//! Little-endian integer reads from byte slices.

use vstd::prelude::*;

verus! {

/// The `u16` whose little-endian bytes are `lo`, `hi`.
pub open spec fn le16(lo: u8, hi: u8) -> u16 {
    (lo as int + 256 * (hi as int)) as u16
}

/// The `u32` whose little-endian bytes are `b0` to `b3`.
pub open spec fn le32(b0: u8, b1: u8, b2: u8, b3: u8) -> u32 {
    (b0 as int + 256 * (b1 as int) + 65536 * (b2 as int) + 16777216 * (b3 as int)) as u32
}

/// The `u16` stored little-endian at `off` in `s`.
pub open spec fn le16_at(s: Seq<u8>, off: int) -> u16 {
    le16(s[off], s[off + 1])
}

/// The `u32` stored little-endian at `off` in `s`.
pub open spec fn le32_at(s: Seq<u8>, off: int) -> u32 {
    le32(s[off], s[off + 1], s[off + 2], s[off + 3])
}

/// Read a little-endian `u16` at `offset`.
pub fn read_u16_le(data: &[u8], offset: usize) -> (r: u16)
    requires
        offset + 2 <= data@.len(),
    ensures
        r == le16_at(data@, offset as int),
{
    data[offset] as u16 + (data[offset + 1] as u16) * 256
}

/// Read a little-endian `u32` at `offset`.
pub fn read_u32_le(data: &[u8], offset: usize) -> (r: u32)
    requires
        offset + 4 <= data@.len(),
    ensures
        r == le32_at(data@, offset as int),
{
    data[offset] as u32 + (data[offset + 1] as u32) * 256 + (data[offset + 2] as u32) * 65536
        + (data[offset + 3] as u32) * 16777216
}

/// Read a little-endian `i16` at `offset` (two's complement).
pub fn read_i16_le(data: &[u8], offset: usize) -> (r: i16)
    requires
        offset + 2 <= data@.len(),
    ensures
        r == le16_at(data@, offset as int) as i16,
{
    read_u16_le(data, offset) as i16
}

/// Read a little-endian `i32` at `offset` (two's complement).
pub fn read_i32_le(data: &[u8], offset: usize) -> (r: i32)
    requires
        offset + 4 <= data@.len(),
    ensures
        r == le32_at(data@, offset as int) as i32,
{
    read_u32_le(data, offset) as i32
}

} // verus!

verus! {

/// The index of the first zero byte of `s` at or after `i`, or `s.len()` if there is none.
pub open spec fn nul_index_from(s: Seq<u8>, i: int) -> int
    decreases s.len() - i,
{
    if i < 0 || i >= s.len() {
        s.len() as int
    } else if s[i] == 0 {
        i
    } else {
        nul_index_from(s, i + 1)
    }
}

/// The index of the first zero byte of `s`, or `s.len()` if there is none.
pub open spec fn nul_index(s: Seq<u8>) -> int {
    nul_index_from(s, 0)
}

/// `nul_index_from` never goes back before `i` nor past the end.
pub proof fn lemma_nul_index_bounds(s: Seq<u8>, i: int)
    requires
        0 <= i <= s.len(),
    ensures
        i <= nul_index_from(s, i) <= s.len(),
    decreases s.len() - i,
{
    if i < s.len() && s[i] != 0 {
        lemma_nul_index_bounds(s, i + 1);
    }
}


/// The index of the first zero byte of `data` at or after `from`, or the
/// length of `data` if there is none.
pub fn find_nul(data: &[u8], from: usize) -> (r: usize)
    requires
        from <= data@.len(),
    ensures
        r == nul_index_from(data@, from as int),
        from <= r <= data@.len(),
{
    let len = data.len();
    let mut i = from;
    while i < len && data[i] != 0
        invariant
            len == data@.len(),
            from <= i <= len,
            nul_index_from(data@, from as int) == nul_index_from(data@, i as int),
        decreases len - i,
    {
        i = i + 1;
    }
    i
}

} // verus!
