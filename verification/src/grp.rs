//! GRP sprite files: a header, frame offsets, and run-length encoded rows.
//!
//! ```text
//! Header:        [u16 frame_count] [u16 width] [u16 height]
//! Frame offsets: [u32 offset] * frame_count, from the start of the file
//! Each frame:    [u8 x_offset] [u8 y_offset] [u8 width] [u8 height]
//!                [u16 row_offset] * height, relative to the frame start
//! Row data:      until `width` pixels are produced:
//!                  byte & 0x80 != 0: (byte & 0x7F) transparent pixels
//!                  byte & 0x40 != 0: (byte & 0x3F) pixels of the next byte's colour
//!                  otherwise:        `byte` literal palette indices follow
//! ```

use vstd::prelude::*;
use crate::bytes::{le16_at, le32_at, read_u16_le, read_u32_le};
use crate::error::{EngineError, EngineErrorView};
use crate::text::{decimal_string, decimal_text};

verus! {

/// A parsed GRP sprite file.
#[derive(Debug, Clone)]
pub struct Grp {
    /// Max width across all frames.
    pub width: u16,
    /// Max height across all frames.
    pub height: u16,
    /// Individual frames.
    pub frames: Vec<GrpFrame>,
}

/// A single GRP frame with decoded pixel data.
#[derive(Debug, Clone)]
pub struct GrpFrame {
    /// X offset within the GRP bounds.
    pub x_offset: u8,
    /// Y offset within the GRP bounds.
    pub y_offset: u8,
    /// Width of this frame's drawn region.
    pub width: u8,
    /// Height of this frame's drawn region.
    pub height: u8,
    /// Decoded pixel data: palette indices (0 = transparent), row-major.
    pub pixels: Vec<u8>,
}

/// The value of a [`GrpFrame`].
pub struct GrpFrameView {
    pub x_offset: u8,
    pub y_offset: u8,
    pub width: u8,
    pub height: u8,
    pub pixels: Seq<u8>,
}

/// The value of a [`Grp`].
pub struct GrpView {
    pub width: u16,
    pub height: u16,
    pub frames: Seq<GrpFrameView>,
}

impl View for GrpFrame {
    type V = GrpFrameView;

    open spec fn view(&self) -> GrpFrameView {
        GrpFrameView {
            x_offset: self.x_offset,
            y_offset: self.y_offset,
            width: self.width,
            height: self.height,
            pixels: self.pixels@,
        }
    }
}

impl View for Grp {
    type V = GrpView;

    open spec fn view(&self) -> GrpView {
        GrpView {
            width: self.width,
            height: self.height,
            frames: self.frames@.map_values(|f: GrpFrame| f@),
        }
    }
}

/// `n` transparent pixels.
pub open spec fn blank(n: int) -> Seq<u8> {
    Seq::new(n as nat, |i: int| 0u8)
}

/// `row` with `n` pixels from `x` on set to `color`.
pub open spec fn fill_run(row: Seq<u8>, x: int, n: int, color: u8) -> Seq<u8> {
    Seq::new(row.len(), |k: int| if x <= k < x + n { color } else { row[k] })
}

/// `row` with the pixels from `x` on replaced by `src`.
pub open spec fn copy_run(row: Seq<u8>, x: int, src: Seq<u8>) -> Seq<u8> {
    Seq::new(row.len(), |k: int| if x <= k < x + src.len() { src[k - x] } else { row[k] })
}

/// The smaller of two integers.
pub open spec fn min_int(a: int, b: int) -> int {
    if a <= b {
        a
    } else {
        b
    }
}

/// Run-length decoding of one row: `row` once the commands of `data` from `pos`
/// on have been applied, with the next pixel at column `x` of a row `w` wide.
/// Decoding stops when the row is full or the data runs out; a colour run whose
/// colour byte is missing ends it, and runs are cut at the row's end.
pub open spec fn rle_row(data: Seq<u8>, pos: int, x: int, w: int, row: Seq<u8>) -> Seq<u8>
    decreases data.len() - pos,
{
    if x >= w || pos >= data.len() || pos < 0 {
        row
    } else {
        let cmd = data[pos];
        let p = pos + 1;
        if cmd & 0x80 != 0 {
            rle_row(data, p, x + (cmd & 0x7f) as int, w, row)
        } else if cmd & 0x40 != 0 {
            if p >= data.len() {
                row
            } else {
                let n = min_int((cmd & 0x3f) as int, w - x);
                rle_row(data, p + 1, x + n, w, fill_run(row, x, n, data[p]))
            }
        } else {
            let n = min_int(min_int(cmd as int, w - x), data.len() - p);
            rle_row(data, p + n, x + n, w, copy_run(row, x, data.subrange(p, p + n)))
        }
    }
}

/// The pixels of one row `w` wide decoded from `data`.
pub open spec fn decoded_row(data: Seq<u8>, w: int) -> Seq<u8> {
    rle_row(data, 0, 0, w, blank(w))
}

/// The three run-length commands of a row, read off their bytes. A byte of
/// 0x80 or more skips that many pixels less 0x80, leaving them transparent;
/// one from 0x40 to 0x7F paints the next byte that many times less 0x40; one
/// below 0x40 copies that many of the bytes that follow.
pub proof fn lemma_rle_commands(w: int, n: u8, c: u8, px: Seq<u8>)
    requires
        n < 64,
        n <= w,
    ensures
        decoded_row(seq![(0x40 + n) as u8, c], w) == Seq::new(
            w as nat,
            |k: int| if k < n { c } else { 0u8 },
        ),
        px.len() == n ==> decoded_row(seq![n] + px, w) == px + blank(w - n),
        n < w ==> decoded_row(seq![(0x80 + n) as u8, 1u8, c], w) == Seq::new(
            w as nat,
            |k: int| if k == n { c } else { 0u8 },
        ),
{
    let fill: u8 = (0x40 + n) as u8;
    let skip: u8 = (0x80 + n) as u8;
    assert(fill & 0x80 == 0 && fill & 0x40 != 0 && fill & 0x3f == n) by (bit_vector)
        requires
            fill == 0x40 + n,
            n < 64,
    ;
    assert(skip & 0x80 != 0 && skip & 0x7f == n) by (bit_vector)
        requires
            skip == 0x80 + n,
            n < 64,
    ;
    assert(n & 0x80 == 0 && n & 0x40 == 0) by (bit_vector)
        requires
            n < 64,
    ;
    assert(1u8 & 0x80 == 0 && 1u8 & 0x40 == 0) by (bit_vector);
    // A fill run.
    let d1 = seq![fill, c];
    assert(d1[0] == fill && d1[1] == c);
    assert(rle_row(d1, 2, n as int, w, fill_run(blank(w), 0, n as int, c)) == fill_run(
        blank(w),
        0,
        n as int,
        c,
    ));
    assert(fill_run(blank(w), 0, n as int, c) =~= Seq::new(
        w as nat,
        |k: int| if k < n { c } else { 0u8 },
    ));
    // A copy run.
    if px.len() == n {
        let d2 = seq![n] + px;
        assert(d2[0] == n);
        assert(d2.subrange(1, 1 + n) =~= px);
        assert(rle_row(d2, 1 + n, n as int, w, copy_run(blank(w), 0, px)) == copy_run(
            blank(w),
            0,
            px,
        ));
        assert(copy_run(blank(w), 0, px) =~= px + blank(w - n));
    }
    // A skip, then one copied pixel.
    if n < w {
        let d3 = seq![skip, 1u8, c];
        assert(d3[0] == skip && d3[1] == 1u8 && d3[2] == c);
        assert(d3.subrange(2, 3) =~= seq![c]);
        let r = copy_run(blank(w), n as int, seq![c]);
        assert(rle_row(d3, 3, n + 1, w, r) == r);
        assert(rle_row(d3, 1, n as int, w, blank(w)) == r);
        assert(r =~= Seq::new(w as nat, |k: int| if k == n { c } else { 0u8 }));
    }
}

/// The pixels of rows `r` to `h - 1` of the frame at `offset`, one after the other.
/// A row whose data would start past the end of the file stays transparent.
pub open spec fn frame_rows(data: Seq<u8>, offset: int, w: int, h: int, r: int) -> Seq<u8>
    decreases h - r,
{
    if r >= h || r < 0 {
        Seq::empty()
    } else {
        let start = offset + le16_at(data, offset + 4 + 2 * r) as int;
        let row = if start >= data.len() {
            blank(w)
        } else {
            decoded_row(data.skip(start), w)
        };
        row + frame_rows(data, offset, w, h, r + 1)
    }
}

/// The frame whose header is at `offset`.
pub open spec fn spec_frame(data: Seq<u8>, offset: int) -> Result<GrpFrameView, EngineErrorView> {
    if offset + 8 > data.len() {
        Err(EngineErrorView::InvalidGrp("frame header truncated"@))
    } else {
        let w = data[offset + 2];
        let h = data[offset + 3];
        if w == 0 || h == 0 {
            Ok(
                GrpFrameView {
                    x_offset: data[offset],
                    y_offset: data[offset + 1],
                    width: w,
                    height: h,
                    pixels: Seq::empty(),
                },
            )
        } else if offset + 4 + 2 * h > data.len() {
            Err(EngineErrorView::InvalidGrp("frame row offsets truncated"@))
        } else {
            Ok(
                GrpFrameView {
                    x_offset: data[offset],
                    y_offset: data[offset + 1],
                    width: w,
                    height: h,
                    pixels: frame_rows(data, offset, w as int, h as int, 0),
                },
            )
        }
    }
}

/// The message for a frame offset that leaves no room for a frame header.
pub open spec fn frame_offset_message(i: int, offset: int) -> Seq<char> {
    "frame "@ + decimal_text(i as nat) + " offset "@ + decimal_text(offset as nat)
        + " out of bounds"@
}

/// `prefix` in front of the frames of `r`, or the error of `r`.
pub open spec fn after_frames(prefix: Seq<GrpFrameView>, r: Result<Seq<GrpFrameView>, EngineErrorView>) -> Result<Seq<GrpFrameView>, EngineErrorView> {
    match r {
        Ok(rest) => Ok(prefix + rest),
        Err(e) => Err(e),
    }
}

/// Frames `i` to `n - 1` of a GRP file, or the error of the first that fails.
pub open spec fn spec_frames(data: Seq<u8>, i: int, n: int) -> Result<Seq<GrpFrameView>, EngineErrorView>
    decreases n - i,
{
    if i >= n || i < 0 {
        Ok(Seq::empty())
    } else {
        let fo = le32_at(data, 6 + 4 * i) as int;
        if fo + 4 > data.len() {
            Err(EngineErrorView::InvalidGrp(frame_offset_message(i, fo)))
        } else {
            match spec_frame(data, fo) {
                Err(e) => Err(e),
                Ok(f) => after_frames(seq![f], spec_frames(data, i + 1, n)),
            }
        }
    }
}

/// The message for a file too short for its frame offset table.
pub open spec fn offsets_message(expected: int, actual: int) -> Seq<char> {
    "expected "@ + decimal_text(expected as nat) + " bytes for frame offsets, got "@
        + decimal_text(actual as nat)
}

/// A whole GRP file.
pub open spec fn spec_grp(data: Seq<u8>) -> Result<GrpView, EngineErrorView> {
    if data.len() < 6 {
        Err(EngineErrorView::InvalidGrp("data too short"@))
    } else {
        let n = le16_at(data, 0) as int;
        let offsets_end = 6 + 4 * n;
        if data.len() < offsets_end {
            Err(EngineErrorView::InvalidGrp(offsets_message(offsets_end, data.len() as int)))
        } else {
            match spec_frames(data, 0, n) {
                Ok(frames) => Ok(
                    GrpView {
                        width: le16_at(data, 2),
                        height: le16_at(data, 4),
                        frames,
                    },
                ),
                Err(e) => Err(e),
            }
        }
    }
}

/// Decoding a row keeps its length and leaves the pixels from column `w` on
/// as they were.
proof fn lemma_rle_row_len(data: Seq<u8>, pos: int, x: int, w: int, row: Seq<u8>)
    ensures
        rle_row(data, pos, x, w, row).len() == row.len(),
        forall|k: int|
            0 <= k && w <= k < row.len() ==> #[trigger] rle_row(data, pos, x, w, row)[k] == row[k],
    decreases data.len() - pos,
{
    if x >= w || pos >= data.len() || pos < 0 {
    } else {
        let cmd = data[pos];
        let p = pos + 1;
        if cmd & 0x80 != 0 {
            lemma_rle_row_len(data, p, x + (cmd & 0x7f) as int, w, row);
        } else if cmd & 0x40 != 0 {
            if p < data.len() {
                let n = min_int((cmd & 0x3f) as int, w - x);
                let next = fill_run(row, x, n, data[p]);
                lemma_rle_row_len(data, p + 1, x + n, w, next);
                assert forall|k: int| 0 <= k && w <= k < row.len() implies #[trigger] rle_row(
                    data,
                    pos,
                    x,
                    w,
                    row,
                )[k] == row[k] by {
                    assert(n <= w - x);
                    assert(!(x <= k < x + n));
                    assert(next[k] == row[k]);
                }
            }
        } else {
            let n = min_int(min_int(cmd as int, w - x), data.len() - p);
            let next = copy_run(row, x, data.subrange(p, p + n));
            lemma_rle_row_len(data, p + n, x + n, w, next);
            assert forall|k: int| 0 <= k && w <= k < row.len() implies #[trigger] rle_row(
                data,
                pos,
                x,
                w,
                row,
            )[k] == row[k] by {
                assert(n <= w - x);
                assert(data.subrange(p, p + n).len() == n);
                assert(!(x <= k < x + n));
                assert(next[k] == row[k]);
            }
        }
    }
}

/// Rows `r` to `h - 1` hold `w` pixels each.
proof fn lemma_frame_rows_len(data: Seq<u8>, offset: int, w: int, h: int, r: int)
    requires
        0 <= w,
        0 <= r <= h,
    ensures
        frame_rows(data, offset, w, h, r).len() == (h - r) * w,
    decreases h - r,
{
    if r < h {
        let start = offset + le16_at(data, offset + 4 + 2 * r) as int;
        let row = if start >= data.len() {
            blank(w)
        } else {
            decoded_row(data.skip(start), w)
        };
        if start < data.len() {
            lemma_rle_row_len(data.skip(start), 0, 0, w, blank(w));
        }
        assert(row.len() == w);
        lemma_frame_rows_len(data, offset, w, h, r + 1);
        assert((h - r) * w == w + (h - (r + 1)) * w) by (nonlinear_arith);
    } else {
        assert((h - r) * w == 0) by (nonlinear_arith)
            requires
                h == r,
        ;
    }
}

/// Every frame that `spec_frame` gives holds `width * height` pixels.
pub proof fn lemma_frame_pixel_count(data: Seq<u8>, offset: int)
    requires
        0 <= offset,
    ensures
        spec_frame(data, offset) matches Ok(f) ==> f.pixels.len() == f.width * f.height,
{
    if offset + 8 <= data.len() {
        let w = data[offset + 2];
        let h = data[offset + 3];
        if w != 0 && h != 0 {
            lemma_frame_rows_len(data, offset, w as int, h as int, 0);
            assert((h as int - 0) * (w as int) == (w as int) * (h as int)) by (nonlinear_arith);
        } else {
            assert((w as int) * (h as int) == 0) by (nonlinear_arith)
                requires
                    w == 0 || h == 0,
            ;
        }
    }
}

/// Decode one run-length encoded row of pixel data into the first
/// `row_width` pixels of `row`.
fn decode_rle_row(data: &[u8], row: &mut [u8], row_width: usize)
    requires
        row_width <= old(row)@.len(),
    ensures
        final(row)@ == rle_row(data@, 0, 0, row_width as int, old(row)@),
        final(row)@.len() == old(row)@.len(),
        forall|k: int| row_width <= k < old(row)@.len() ==> #[trigger] final(row)@[k] == old(row)@[k],
{
    proof {
        lemma_rle_row_len(data@, 0, 0, row_width as int, old(row)@);
    }
    let len = data.len();
    let ghost rlen = row@.len();
    let mut pos: usize = 0;
    let mut x: usize = 0;
    while x < row_width && pos < len
        invariant
            len == data@.len(),
            row@.len() == rlen,
            row_width <= rlen,
            x <= row_width,
            pos <= len,
            rle_row(data@, 0, 0, row_width as int, old(row)@) == rle_row(
                data@,
                pos as int,
                x as int,
                row_width as int,
                row@,
            ),
        decreases len - pos,
    {
        let cmd = data[pos];
        pos = pos + 1;
        if cmd & 0x80 != 0 {
            let count = (cmd & 0x7f) as usize;
            assert(cmd & 0x7f <= 0x7f) by (bit_vector);
            // A run that reaches past the row ends the row.
            if count >= row_width - x {
                assert(rle_row(data@, pos as int, x + count, row_width as int, row@) == row@);
                x = row_width;
            } else {
                x = x + count;
            }
        } else if cmd & 0x40 != 0 {
            let count = (cmd & 0x3f) as usize;
            assert(cmd & 0x3f <= 0x3f) by (bit_vector);
            if pos < len {
                let color = data[pos];
                pos = pos + 1;
                let ghost row0 = row@;
                let ghost x0 = x as int;
                let n = if count < row_width - x {
                    count
                } else {
                    row_width - x
                };
                let mut k: usize = 0;
                while k < n
                    invariant
                        row@.len() == rlen,
                        row0.len() == rlen,
                        row_width <= rlen,
                        x0 + n <= row_width,
                        k <= n,
                        x == x0 + k,
                        row@ == fill_run(row0, x0, k as int, color),
                    decreases n - k,
                {
                    row[x] = color;
                    x = x + 1;
                    k = k + 1;
                    assert(row@ =~= fill_run(row0, x0, k as int, color));
                }
            }
        } else {
            let count = cmd as usize;
            let ghost row0 = row@;
            let ghost x0 = x as int;
            let ghost p0 = pos as int;
            let mut n = if count < row_width - x {
                count
            } else {
                row_width - x
            };
            if len - pos < n {
                n = len - pos;
            }
            let mut k: usize = 0;
            while k < n
                invariant
                    len == data@.len(),
                    row@.len() == rlen,
                    row0.len() == rlen,
                    row_width <= rlen,
                    0 <= x0,
                    0 <= p0,
                    x0 + n <= row_width,
                    p0 + n <= len,
                    k <= n,
                    x == x0 + k,
                    pos == p0 + k,
                    row@ == copy_run(row0, x0, data@.subrange(p0, p0 + k)),
                decreases n - k,
            {
                let b = data[pos];
                row[x] = b;
                x = x + 1;
                pos = pos + 1;
                k = k + 1;
                assert(data@.subrange(p0, p0 + k)[k - 1] == b);
                assert(row@ =~= copy_run(row0, x0, data@.subrange(p0, p0 + k)));
            }
        }
    }
}

/// Parse the frame whose header is at `offset`.
fn parse_frame(data: &[u8], offset: usize) -> (r: Result<GrpFrame, EngineError>)
    ensures
        match spec_frame(data@, offset as int) {
            Ok(f) => r matches Ok(g) && g@ == f,
            Err(e) => r matches Err(x) && x@ == e,
        },
{
    let len = data.len();
    if len < 8 || offset > len - 8 {
        return Err(EngineError::InvalidGrp(String::from_str("frame header truncated")));
    }
    let x_offset = data[offset];
    let y_offset = data[offset + 1];
    let width = data[offset + 2];
    let height = data[offset + 3];

    if width == 0 || height == 0 {
        return Ok(GrpFrame { x_offset, y_offset, width, height, pixels: Vec::new() });
    }

    let row_offsets_start = offset + 4;
    if height as usize * 2 > len - row_offsets_start {
        return Err(EngineError::InvalidGrp(String::from_str("frame row offsets truncated")));
    }

    let w = width as usize;
    let h = height as usize;
    let mut pixels: Vec<u8> = Vec::new();
    let mut row: usize = 0;
    while row < h
        invariant
            len == data@.len(),
            offset + 4 + 2 * h <= len,
            row_offsets_start == offset + 4,
            1 <= w <= 255,
            h <= 255,
            row <= h,
            frame_rows(data@, offset as int, w as int, h as int, 0) == pixels@ + frame_rows(
                data@,
                offset as int,
                w as int,
                h as int,
                row as int,
            ),
        decreases h - row,
    {
        let row_offset = read_u16_le(data, row_offsets_start + row * 2) as usize;
        let mut line: Vec<u8> = Vec::new();
        let mut k: usize = 0;
        while k < w
            invariant
                k <= w,
                line@ == blank(k as int),
            decreases w - k,
        {
            line.push(0u8);
            k = k + 1;
            assert(line@ =~= blank(k as int));
        }
        if row_offset < len - offset {
            let abs_row_offset = offset + row_offset;
            decode_rle_row(&data[abs_row_offset..len], line.as_mut_slice(), w);
            assert(data@.subrange(abs_row_offset as int, len as int) =~= data@.skip(
                abs_row_offset as int,
            ));
        }
        let ghost before = pixels@;
        crate::section::append_bytes(&mut pixels, line.as_slice());
        assert(pixels@ + frame_rows(data@, offset as int, w as int, h as int, row + 1) =~= before
            + frame_rows(data@, offset as int, w as int, h as int, row as int));
        row = row + 1;
    }
    assert(pixels@ + frame_rows(data@, offset as int, w as int, h as int, h as int) =~= pixels@);
    Ok(GrpFrame { x_offset, y_offset, width, height, pixels })
}

impl Grp {
    /// Parse a GRP file from raw bytes.
    pub fn from_bytes(data: &[u8]) -> (r: Result<Grp, EngineError>)
        ensures
            match spec_grp(data@) {
                Ok(g) => r matches Ok(v) && v@ == g,
                Err(e) => r matches Err(x) && x@ == e,
            },
            r matches Ok(v) ==> forall|i: int|
                0 <= i < v.frames@.len() ==> #[trigger] v.frames@[i].pixels@.len()
                    == v.frames@[i].width * v.frames@[i].height,
    {
        let len = data.len();
        if len < 6 {
            return Err(EngineError::InvalidGrp(String::from_str("data too short")));
        }
        let frame_count = read_u16_le(data, 0) as usize;
        let width = read_u16_le(data, 2);
        let height = read_u16_le(data, 4);

        let offsets_end = 6 + frame_count * 4;
        if len < offsets_end {
            let mut msg = String::from_str("expected ");
            msg.append(decimal_string(offsets_end).as_str());
            msg.append(" bytes for frame offsets, got ");
            msg.append(decimal_string(len).as_str());
            return Err(EngineError::InvalidGrp(msg));
        }

        let mut frames: Vec<GrpFrame> = Vec::new();
        let mut i: usize = 0;
        while i < frame_count
            invariant
                len == data@.len(),
                frame_count == le16_at(data@, 0),
                6 + 4 * frame_count <= len,
                i <= frame_count,
                spec_frames(data@, 0, frame_count as int) == after_frames(
                    frames@.map_values(|f: GrpFrame| f@),
                    spec_frames(data@, i as int, frame_count as int),
                ),
                forall|j: int|
                    0 <= j < frames@.len() ==> #[trigger] frames@[j].pixels@.len()
                        == frames@[j].width * frames@[j].height,
            decreases frame_count - i,
        {
            let frame_offset = read_u32_le(data, 6 + i * 4) as usize;
            if frame_offset as u64 + 4 > len as u64 {
                let mut msg = String::from_str("frame ");
                msg.append(decimal_string(i).as_str());
                msg.append(" offset ");
                msg.append(decimal_string(frame_offset).as_str());
                msg.append(" out of bounds");
                return Err(EngineError::InvalidGrp(msg));
            }
            let frame = match parse_frame(data, frame_offset) {
                Ok(f) => f,
                Err(e) => return Err(e),
            };
            proof {
                lemma_frame_pixel_count(data@, frame_offset as int);
            }
            let ghost before = frames@.map_values(|f: GrpFrame| f@);
            frames.push(frame);
            assert(frames@.map_values(|f: GrpFrame| f@) =~= before + seq![frame@]);
            proof {
                match spec_frames(data@, i + 1, frame_count as int) {
                    Ok(rest) => {
                        assert((before + seq![frame@]) + rest =~= before + (seq![frame@] + rest));
                    },
                    Err(_) => {},
                }
            }
            i = i + 1;
        }
        assert(frames@.map_values(|f: GrpFrame| f@) + Seq::<GrpFrameView>::empty()
            =~= frames@.map_values(|f: GrpFrame| f@));
        Ok(Grp { width, height, frames })
    }

    /// Number of frames.
    pub fn frame_count(&self) -> (n: usize)
        ensures
            n == self.frames@.len(),
    {
        self.frames.len()
    }
}

} // verus!
