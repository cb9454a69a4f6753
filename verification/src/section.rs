//! Replay sections: an envelope of compressed chunks around each section.

use vstd::prelude::*;
use vstd::wrapping::usize_specs;
use crate::bytes::{le32_at, read_u32_le};
use crate::decompress::{explode_pkware, inflate_zlib, pkware_explode, zlib_inflate};
use crate::error::{ReplayError, ReplayErrorView};
use crate::format::Format;

verus! {

/// Reading a little-endian `i32` at `offset`: fails with `TooShort` (expected
/// end `offset + 4`, wrapping like a release build) when the four bytes are not there.
pub open spec fn spec_read_i32(data: Seq<u8>, offset: usize) -> Result<i32, ReplayErrorView> {
    let end = usize_specs::wrapping_add(offset, 4);
    if offset <= end && end <= data.len() {
        Ok(le32_at(data, offset as int) as i32)
    } else {
        Err(ReplayErrorView::TooShort { expected: end, actual: data.len() as usize })
    }
}

/// Reads a little-endian i32 from a byte slice at the given offset.
fn read_i32(data: &[u8], offset: usize) -> (r: Result<i32, ReplayError>)
    ensures
        spec_read_i32(data@, offset) == (match r {
            Ok(v) => Ok::<i32, ReplayErrorView>(v),
            Err(e) => Err::<i32, ReplayErrorView>(e@),
        }),
{
    let end = offset.wrapping_add(4);
    if offset <= end && end <= data.len() {
        Ok(read_u32_le(data, offset) as i32)
    } else {
        Err(ReplayError::TooShort { expected: end, actual: data.len() })
    }
}

/// The bytes that one chunk of a section decompresses to. Modern chunks that
/// are longer than 4 bytes and start with the zlib magic 0x78 are inflated;
/// other modern chunks are stored verbatim. Legacy chunks of more than 2 bytes
/// are exploded, and stored verbatim where that fails.
pub open spec fn spec_decompress_chunk(chunk: Seq<u8>, fmt: Format) -> Result<
    Seq<u8>,
    ReplayErrorView,
> {
    match fmt {
        Format::Legacy => {
            if chunk.len() <= 2 {
                Ok(chunk)
            } else {
                match pkware_explode(chunk) {
                    Ok(v) => Ok(v),
                    Err(_) => Ok(chunk),
                }
            }
        },
        _ => {
            if chunk.len() > 4 && chunk[0] == 0x78 {
                match zlib_inflate(chunk) {
                    Ok(v) => Ok(v),
                    Err(m) => Err(ReplayErrorView::Decompression(m)),
                }
            } else {
                Ok(chunk)
            }
        },
    }
}

/// Modern format: if the chunk starts with 0x78 (zlib header), decompress;
/// otherwise copy verbatim.
fn decompress_zlib_or_raw(chunk: &[u8], out: &mut Vec<u8>) -> (r: Result<(), ReplayError>)
    ensures
        match spec_decompress_chunk(chunk@, Format::Modern) {
            Ok(v) => r is Ok && final(out)@ == old(out)@ + v,
            Err(e) => r matches Err(re) && re@ == e,
        },
{
    if chunk.len() > 4 && chunk[0] == 0x78 {
        match inflate_zlib(chunk) {
            Ok(buf) => {
                append_bytes(out, buf.as_slice());
                Ok(())
            },
            Err(msg) => Err(ReplayError::Decompression(msg)),
        }
    } else {
        append_bytes(out, chunk);
        Ok(())
    }
}

/// Legacy format: decompress using PKWare DCL Implode; chunks of at most two
/// bytes, and chunks that fail to decompress, are copied raw.
fn decompress_pkware(chunk: &[u8], out: &mut Vec<u8>) -> (r: Result<(), ReplayError>)
    ensures
        r is Ok,
        spec_decompress_chunk(chunk@, Format::Legacy) matches Ok(v) && final(out)@ == old(out)@ + v,
{
    if chunk.len() <= 2 {
        append_bytes(out, chunk);
        return Ok(());
    }
    match explode_pkware(chunk) {
        Ok(decompressed) => {
            append_bytes(out, decompressed.as_slice());
            Ok(())
        },
        Err(_) => {
            append_bytes(out, chunk);
            Ok(())
        },
    }
}

/// Decompress a single chunk, dispatching by format.
fn decompress_chunk(chunk: &[u8], fmt: Format, out: &mut Vec<u8>) -> (r: Result<(), ReplayError>)
    ensures
        match spec_decompress_chunk(chunk@, fmt) {
            Ok(v) => r is Ok && final(out)@ == old(out)@ + v,
            Err(e) => r matches Err(re) && re@ == e,
        },
{
    match fmt {
        Format::Legacy => decompress_pkware(chunk, out),
        Format::Modern | Format::Modern121 => decompress_zlib_or_raw(chunk, out),
    }
}

/// Append `src` to `out`.
pub(crate) fn append_bytes(out: &mut Vec<u8>, src: &[u8])
    ensures
        final(out)@ == old(out)@ + src@,
{
    let mut i: usize = 0;
    let ghost start = out@;
    while i < src.len()
        invariant
            i <= src@.len(),
            out@ == start + src@.take(i as int),
        decreases src@.len() - i,
    {
        out.push(src[i]);
        i = i + 1;
        proof {
            assert(out@ =~= start + src@.take(i as int));
        }
    }
    proof {
        assert(src@.take(i as int) =~= src@);
    }
}

/// The chunks of a section from `cursor` on, `remaining` of them, appended to `acc`:
/// the section's bytes and the position after its last chunk.
pub open spec fn spec_chunks(
    data: Seq<u8>,
    cursor: usize,
    remaining: nat,
    fmt: Format,
    acc: Seq<u8>,
) -> Result<(Seq<u8>, usize), ReplayErrorView>
    decreases remaining,
{
    if remaining == 0 {
        Ok((acc, cursor))
    } else {
        match spec_read_i32(data, cursor) {
            Err(e) => Err(e),
            Ok(n) => {
                let start = (cursor + 4) as usize;
                let end = usize_specs::wrapping_add(start, n as usize);
                if start <= end && end <= data.len() {
                    match spec_decompress_chunk(data.subrange(start as int, end as int), fmt) {
                        Err(e) => Err(e),
                        Ok(bytes) => spec_chunks(data, end, (remaining - 1) as nat, fmt, acc + bytes),
                    }
                } else {
                    Err(ReplayErrorView::TooShort { expected: end, actual: data.len() as usize })
                }
            },
        }
    }
}

/// A section at `offset`: `[i32 checksum] [i32 chunk_count]` followed by
/// `chunk_count` chunks `[i32 length] [length bytes]`. Its decompressed bytes
/// and the number of raw bytes it spans.
pub open spec fn spec_decompress_section(data: Seq<u8>, offset: usize, fmt: Format) -> Result<
    (Seq<u8>, usize),
    ReplayErrorView,
> {
    match spec_read_i32(data, offset) {
        Err(e) => Err(e),
        Ok(_) => match spec_read_i32(data, usize_specs::wrapping_add(offset, 4)) {
            Err(e) => Err(e),
            Ok(count) => match spec_chunks(
                data,
                (offset + 8) as usize,
                (count as usize) as nat,
                fmt,
                seq![],
            ) {
                Err(e) => Err(e),
                Ok((bytes, end)) => Ok((bytes, (end - offset) as usize)),
            },
        },
    }
}

/// Decompress a single section from the replay data stream.
///
/// Each section starts with an 8-byte envelope: an i32 checksum (ignored) and an
/// i32 chunk count, followed by that many chunks, each an i32 compressed length
/// and that many bytes of compressed data. Modern replays use zlib, legacy
/// replays PKWare DCL Implode.
///
/// Returns `(decompressed_section_data, bytes_consumed)`.
pub fn decompress_section(data: &[u8], offset: usize, fmt: Format) -> (r: Result<
    (Vec<u8>, usize),
    ReplayError,
>)
    ensures
        spec_decompress_section(data@, offset, fmt) == (match r {
            Ok((v, n)) => Ok::<(Seq<u8>, usize), ReplayErrorView>((v@, n)),
            Err(e) => Err::<(Seq<u8>, usize), ReplayErrorView>(e@),
        }),
        r matches Ok((_, n)) ==> offset + n <= data@.len(),
{
    let _checksum = match read_i32(data, offset) {
        Ok(v) => v,
        Err(e) => return Err(e),
    };
    let chunk_count = match read_i32(data, offset.wrapping_add(4)) {
        Ok(v) => v as usize,
        Err(e) => return Err(e),
    };
    let mut cursor = offset + 8;
    let mut decompressed: Vec<u8> = Vec::new();
    let mut i: usize = 0;
    while i < chunk_count
        invariant
            offset + 8 <= cursor <= data@.len(),
            i <= chunk_count,
            spec_decompress_section(data@, offset, fmt) == (match spec_chunks(
                data@,
                cursor,
                (chunk_count - i) as nat,
                fmt,
                decompressed@,
            ) {
                Err(e) => Err(e),
                Ok((bytes, end)) => Ok::<(Seq<u8>, usize), ReplayErrorView>(
                    (bytes, (end - offset) as usize),
                ),
            }),
        decreases chunk_count - i,
    {
        let compressed_len = match read_i32(data, cursor) {
            Ok(v) => v as usize,
            Err(e) => return Err(e),
        };
        cursor = cursor + 4;
        let end = cursor.wrapping_add(compressed_len);
        if !(cursor <= end && end <= data.len()) {
            return Err(ReplayError::TooShort { expected: end, actual: data.len() });
        }
        let chunk_data = &data[cursor..end];
        match decompress_chunk(chunk_data, fmt, &mut decompressed) {
            Ok(()) => {},
            Err(e) => return Err(e),
        }
        cursor = end;
        i = i + 1;
    }
    Ok((decompressed, cursor - offset))
}

} // verus!
