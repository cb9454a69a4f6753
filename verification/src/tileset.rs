//! Tileset data files: CV5 tile groups, VF4 mini-tile flags, VX4 mini-tile
//! references, VR4 mini-tile pixels and WPE palettes.

use vstd::prelude::*;
use crate::bytes::{le16_at, read_u16_le};
use crate::error::{EngineError, EngineErrorView};

verus! {

broadcast use vstd::array::group_array_axioms;

/// The 8 StarCraft tilesets, numbered 0 to 7 in this order.
#[derive(Debug, Clone, Copy, PartialEq, Eq, Structural, Hash)]
pub enum Tileset {
    Badlands,
    SpacePlatform,
    Installation,
    Ashworld,
    Jungle,
    Desert,
    Arctic,
    Twilight,
}

/// The tileset numbered `n`, for `n` from 0 to 7.
pub open spec fn tileset_numbered(n: int) -> Tileset {
    if n == 0 {
        Tileset::Badlands
    } else if n == 1 {
        Tileset::SpacePlatform
    } else if n == 2 {
        Tileset::Installation
    } else if n == 3 {
        Tileset::Ashworld
    } else if n == 4 {
        Tileset::Jungle
    } else if n == 5 {
        Tileset::Desert
    } else if n == 6 {
        Tileset::Arctic
    } else {
        Tileset::Twilight
    }
}

/// The display name of a tileset.
pub open spec fn tileset_name(t: Tileset) -> Seq<char> {
    match t {
        Tileset::Badlands => "Badlands"@,
        Tileset::SpacePlatform => "Space Platform"@,
        Tileset::Installation => "Installation"@,
        Tileset::Ashworld => "Ashworld"@,
        Tileset::Jungle => "Jungle"@,
        Tileset::Desert => "Desert"@,
        Tileset::Arctic => "Arctic"@,
        Tileset::Twilight => "Twilight"@,
    }
}

/// The stem of a tileset's file names in the game data.
pub open spec fn tileset_file_stem(t: Tileset) -> Seq<char> {
    match t {
        Tileset::Badlands => "badlands"@,
        Tileset::SpacePlatform => "platform"@,
        Tileset::Installation => "install"@,
        Tileset::Ashworld => "AshWorld"@,
        Tileset::Jungle => "Jungle"@,
        Tileset::Desert => "Desert"@,
        Tileset::Arctic => "Ice"@,
        Tileset::Twilight => "Twilight"@,
    }
}

impl Tileset {
    /// The tileset for a map's tileset number; only the number modulo 8 counts.
    pub fn from_index(index: u16) -> (r: Result<Tileset, EngineError>)
        ensures
            r matches Ok(t) && t == tileset_numbered((index % 8) as int),
    {
        let n = index % 8;
        if n == 0 {
            Ok(Tileset::Badlands)
        } else if n == 1 {
            Ok(Tileset::SpacePlatform)
        } else if n == 2 {
            Ok(Tileset::Installation)
        } else if n == 3 {
            Ok(Tileset::Ashworld)
        } else if n == 4 {
            Ok(Tileset::Jungle)
        } else if n == 5 {
            Ok(Tileset::Desert)
        } else if n == 6 {
            Ok(Tileset::Arctic)
        } else {
            Ok(Tileset::Twilight)
        }
    }

    /// The display name (e.g. "Space Platform").
    pub fn name(self) -> (s: &'static str)
        ensures
            s@ == tileset_name(self),
    {
        match self {
            Tileset::Badlands => "Badlands",
            Tileset::SpacePlatform => "Space Platform",
            Tileset::Installation => "Installation",
            Tileset::Ashworld => "Ashworld",
            Tileset::Jungle => "Jungle",
            Tileset::Desert => "Desert",
            Tileset::Arctic => "Arctic",
            Tileset::Twilight => "Twilight",
        }
    }

    /// The stem of the tileset's file names (e.g. "Ice" for `Ice.cv5`).
    pub fn file_stem(self) -> (s: &'static str)
        ensures
            s@ == tileset_file_stem(self),
    {
        match self {
            Tileset::Badlands => "badlands",
            Tileset::SpacePlatform => "platform",
            Tileset::Installation => "install",
            Tileset::Ashworld => "AshWorld",
            Tileset::Jungle => "Jungle",
            Tileset::Desert => "Desert",
            Tileset::Arctic => "Ice",
            Tileset::Twilight => "Twilight",
        }
    }
}

/// CV5 entry size in bytes.
pub const CV5_ENTRY_SIZE: usize = 52;

/// VF4 entry size in bytes (16 x u16 mini-tile flags).
pub const VF4_ENTRY_SIZE: usize = 32;

/// VX4 entry size in bytes (16 x u16 mini-tile image references).
pub const VX4_ENTRY_SIZE: usize = 32;

/// VR4 entry size in bytes (8x8 = 64 palette indices).
pub const VR4_ENTRY_SIZE: usize = 64;

/// WPE file size (256 colors x 4 bytes each).
pub const WPE_SIZE: usize = 1024;

/// Parsed CV5 entry (one per tile group).
#[derive(Debug, Clone)]
pub struct Cv5Entry {
    pub flags: u16,
    pub mega_tile_indices: [u16; 16],
}

/// Parsed VF4 entry: 16 mini-tile flags for a 4x4 grid of 8x8px mini-tiles.
#[derive(Debug, Clone)]
pub struct Vf4Entry {
    pub mini_tile_flags: [u16; 16],
}

/// Whether `a` holds the 16 little-endian `u16`s stored from `base` in `data`.
pub open spec fn holds_u16s(a: [u16; 16], data: Seq<u8>, base: int) -> bool {
    forall|j: int| 0 <= j < 16 ==> #[trigger] a[j] == le16_at(data, base + 2 * j)
}

/// Whether `e` is the CV5 entry stored at `base` in `data`: flags at bytes 2-3,
/// mega-tile indices at bytes 20-51.
pub open spec fn is_cv5_entry(e: Cv5Entry, data: Seq<u8>, base: int) -> bool {
    &&& e.flags == le16_at(data, base + 2)
    &&& holds_u16s(e.mega_tile_indices, data, base + 20)
}

/// The error for a file whose size is not a whole number of entries.
pub open spec fn size_error(file: Seq<char>, entry_size: usize, len: int) -> EngineErrorView {
    EngineErrorView::TilesetDataTooShort {
        file,
        expected: entry_size,
        actual: (len % entry_size as int) as usize,
    }
}

/// Read the 16 little-endian `u16`s stored from `base`.
fn read_u16_array(data: &[u8], base: usize) -> (a: [u16; 16])
    requires
        base + 32 <= data@.len(),
    ensures
        holds_u16s(a, data@, base as int),
{
    let mut a = [0u16; 16];
    let len = data.len();
    let mut j: usize = 0;
    while j < 16
        invariant
            j <= 16,
            len == data@.len(),
            base + 32 <= data@.len(),
            forall|k: int| 0 <= k < j ==> #[trigger] a[k] == le16_at(data@, base + 2 * k),
        decreases 16 - j,
    {
        a[j] = read_u16_le(data, base + j * 2);
        j = j + 1;
    }
    a
}

/// Parse a CV5 file: one 52-byte entry per tile group.
pub fn parse_cv5(data: &[u8]) -> (r: Result<Vec<Cv5Entry>, EngineError>)
    ensures
        data@.len() % 52 != 0 ==> (r matches Err(e) && e@ == size_error(
            "cv5"@,
            CV5_ENTRY_SIZE,
            data@.len() as int,
        )),
        data@.len() % 52 == 0 ==> (r matches Ok(v) && v@.len() == data@.len() / 52 && forall|
            i: int,
        |
            0 <= i < v@.len() ==> #[trigger] is_cv5_entry(v@[i], data@, 52 * i)),
{
    let len = data.len();
    if len % CV5_ENTRY_SIZE != 0 {
        return Err(
            EngineError::TilesetDataTooShort {
                file: "cv5",
                expected: CV5_ENTRY_SIZE,
                actual: len % CV5_ENTRY_SIZE,
            },
        );
    }
    let count = len / CV5_ENTRY_SIZE;
    let mut entries: Vec<Cv5Entry> = Vec::new();
    let mut i: usize = 0;
    while i < count
        invariant
            len == data@.len(),
            count == len / 52,
            i <= count,
            entries@.len() == i,
            forall|k: int| 0 <= k < i ==> #[trigger] is_cv5_entry(entries@[k], data@, 52 * k),
        decreases count - i,
    {
        assert(52 * i + 52 <= len) by (nonlinear_arith)
            requires
                i < count,
                count == len / 52,
        ;
        let base = i * CV5_ENTRY_SIZE;
        let flags = read_u16_le(data, base + 2);
        let mega_tile_indices = read_u16_array(data, base + 20);
        entries.push(Cv5Entry { flags, mega_tile_indices });
        i = i + 1;
    }
    Ok(entries)
}

/// Parse a VF4 file: one 32-byte entry of 16 mini-tile flags per megatile.
pub fn parse_vf4(data: &[u8]) -> (r: Result<Vec<Vf4Entry>, EngineError>)
    ensures
        data@.len() % 32 != 0 ==> (r matches Err(e) && e@ == size_error(
            "vf4"@,
            VF4_ENTRY_SIZE,
            data@.len() as int,
        )),
        data@.len() % 32 == 0 ==> (r matches Ok(v) && v@.len() == data@.len() / 32 && forall|
            i: int,
        |
            0 <= i < v@.len() ==> #[trigger] holds_u16s(v@[i].mini_tile_flags, data@, 32 * i)),
{
    let len = data.len();
    if len % VF4_ENTRY_SIZE != 0 {
        return Err(
            EngineError::TilesetDataTooShort {
                file: "vf4",
                expected: VF4_ENTRY_SIZE,
                actual: len % VF4_ENTRY_SIZE,
            },
        );
    }
    let count = len / VF4_ENTRY_SIZE;
    let mut entries: Vec<Vf4Entry> = Vec::new();
    let mut i: usize = 0;
    while i < count
        invariant
            len == data@.len(),
            count == len / 32,
            i <= count,
            entries@.len() == i,
            forall|k: int|
                0 <= k < i ==> #[trigger] holds_u16s(entries@[k].mini_tile_flags, data@, 32 * k),
        decreases count - i,
    {
        assert(32 * i + 32 <= len) by (nonlinear_arith)
            requires
                i < count,
                count == len / 32,
        ;
        let mini_tile_flags = read_u16_array(data, i * VF4_ENTRY_SIZE);
        entries.push(Vf4Entry { mini_tile_flags });
        i = i + 1;
    }
    Ok(entries)
}

/// The tile group of a raw MTXM tile id: bits 4-14.
pub open spec fn group_of(tile_id: u16) -> int {
    ((tile_id >> 4u16) & 0x7ffu16) as int
}

/// The subtile of a raw MTXM tile id: bits 0-3.
pub open spec fn subtile_of(tile_id: u16) -> int {
    (tile_id & 0xfu16) as int
}

/// A raw tile id, its top bit aside, is sixteen subtiles per group: the
/// group is the id (below 0x8000) divided by 16, the subtile the remainder.
pub proof fn lemma_tile_id_parts(tile_id: u16)
    ensures
        group_of(tile_id) == (tile_id % 0x8000) / 16,
        subtile_of(tile_id) == tile_id % 16,
        tile_id % 0x8000 == 16 * group_of(tile_id) + subtile_of(tile_id),
{
    assert((tile_id >> 4u16) & 0x7ffu16 == (tile_id % 0x8000) / 16) by (bit_vector);
    assert(tile_id & 0xfu16 == tile_id % 16) by (bit_vector);
}

/// Parsed tileset data ready for tile lookups.
pub struct TilesetData {
    cv5: Vec<Cv5Entry>,
    vf4: Vec<Vf4Entry>,
}

/// The value of a [`TilesetData`]: its CV5 and VF4 entries.
pub struct TilesetDataView {
    pub cv5: Seq<Cv5Entry>,
    pub vf4: Seq<Vf4Entry>,
}

impl View for TilesetData {
    type V = TilesetDataView;

    closed spec fn view(&self) -> TilesetDataView {
        TilesetDataView { cv5: self.cv5@, vf4: self.vf4@ }
    }
}

impl TilesetData {
    /// Parse from raw CV5 and VF4 file bytes; a CV5 error comes first.
    pub fn from_bytes(cv5_data: &[u8], vf4_data: &[u8]) -> (r: Result<TilesetData, EngineError>)
        ensures
            cv5_data@.len() % 52 != 0 ==> (r matches Err(e) && e@ == size_error(
                "cv5"@,
                CV5_ENTRY_SIZE,
                cv5_data@.len() as int,
            )),
            cv5_data@.len() % 52 == 0 && vf4_data@.len() % 32 != 0 ==> (r matches Err(e) && e@
                == size_error("vf4"@, VF4_ENTRY_SIZE, vf4_data@.len() as int)),
            cv5_data@.len() % 52 == 0 && vf4_data@.len() % 32 == 0 ==> (r matches Ok(t) && t@.cv5.len()
                == cv5_data@.len() / 52 && t@.vf4.len() == vf4_data@.len() / 32 && (forall|i: int|
                0 <= i < t@.cv5.len() ==> #[trigger] is_cv5_entry(t@.cv5[i], cv5_data@, 52 * i))
                && (forall|i: int|
                0 <= i < t@.vf4.len() ==> #[trigger] holds_u16s(
                    t@.vf4[i].mini_tile_flags,
                    vf4_data@,
                    32 * i,
                ))),
    {
        let cv5 = match parse_cv5(cv5_data) {
            Ok(v) => v,
            Err(e) => return Err(e),
        };
        let vf4 = match parse_vf4(vf4_data) {
            Ok(v) => v,
            Err(e) => return Err(e),
        };
        Ok(TilesetData { cv5, vf4 })
    }

    /// The VF4 megatile index for a raw MTXM tile id, or `None` when its tile
    /// group is out of range (treated as an empty tile).
    pub fn megatile_index(&self, tile_id: u16) -> (r: Option<u16>)
        ensures
            group_of(tile_id) < self@.cv5.len() ==> r == Some(
                self@.cv5[group_of(tile_id)].mega_tile_indices[subtile_of(tile_id)],
            ),
            group_of(tile_id) >= self@.cv5.len() ==> r is None,
    {
        let group_index = ((tile_id >> 4) & 0x7ff) as usize;
        let subtile_index = (tile_id & 0xf) as usize;
        assert(tile_id & 0xfu16 < 16) by (bit_vector);
        if group_index < self.cv5.len() {
            Some(self.cv5[group_index].mega_tile_indices[subtile_index])
        } else {
            None
        }
    }

    /// The 4x4 mini-tile flags of a megatile.
    pub fn mini_tile_flags(&self, megatile_idx: u16) -> (r: Result<&[u16; 16], EngineError>)
        ensures
            megatile_idx < self@.vf4.len() ==> (r matches Ok(f) && *f
                == self@.vf4[megatile_idx as int].mini_tile_flags),
            megatile_idx >= self@.vf4.len() ==> (r matches Err(e) && e@
                == (EngineErrorView::MegatileLookupOutOfBounds {
                index: megatile_idx as usize,
                vf4_len: self@.vf4.len() as usize,
            })),
    {
        let idx = megatile_idx as usize;
        if idx < self.vf4.len() {
            Ok(&self.vf4[idx].mini_tile_flags)
        } else {
            Err(EngineError::MegatileLookupOutOfBounds { index: idx, vf4_len: self.vf4.len() })
        }
    }

    /// The CV5 flags of a tile's group, or 0 when the group is out of range.
    pub fn cv5_flags(&self, tile_id: u16) -> (r: u16)
        ensures
            group_of(tile_id) < self@.cv5.len() ==> r == self@.cv5[group_of(tile_id)].flags,
            group_of(tile_id) >= self@.cv5.len() ==> r == 0,
    {
        let group_index = ((tile_id >> 4) & 0x7ff) as usize;
        if group_index < self.cv5.len() {
            self.cv5[group_index].flags
        } else {
            0
        }
    }
}

/// A VX4 entry: 16 references to VR4 mini-tile images for a 4x4 grid. Each
/// reference holds the VR4 index above bit 0, and bit 0 flags a horizontal flip.
#[derive(Debug, Clone)]
pub struct Vx4Entry {
    /// Raw mini-tile references (VR4 index + flip bit).
    pub refs: [u16; 16],
}

impl Vx4Entry {
    /// The VR4 image index of a mini-tile (0-15).
    pub fn vr4_index(&self, mini_tile: usize) -> (r: u16)
        requires
            mini_tile < 16,
        ensures
            r == self.refs[mini_tile as int] >> 1u16,
    {
        self.refs[mini_tile] >> 1
    }

    /// Whether a mini-tile is drawn horizontally flipped.
    pub fn is_flipped(&self, mini_tile: usize) -> (b: bool)
        requires
            mini_tile < 16,
        ensures
            b == (self.refs[mini_tile as int] & 1u16 != 0),
    {
        self.refs[mini_tile] & 1 != 0
    }
}

/// A mini-tile reference is its VR4 index shifted past the flip bit, with the flip bit.
pub proof fn lemma_vx4_ref_parts(r: u16)
    ensures
        r == ((r >> 1u16) << 1u16) | (r & 1u16),
        r >> 1u16 < 0x8000,
{
    assert(r == ((r >> 1u16) << 1u16) | (r & 1u16)) by (bit_vector);
    assert(r >> 1u16 < 0x8000) by (bit_vector);
}

/// Parsed VX4 data.
pub struct Vx4Data {
    entries: Vec<Vx4Entry>,
}

impl View for Vx4Data {
    type V = Seq<Vx4Entry>;

    closed spec fn view(&self) -> Seq<Vx4Entry> {
        self.entries@
    }
}

impl Vx4Data {
    /// Parse from raw VX4 file bytes: one 32-byte entry per megatile.
    pub fn from_bytes(data: &[u8]) -> (r: Result<Vx4Data, EngineError>)
        ensures
            data@.len() % 32 != 0 ==> (r matches Err(e) && e@ == size_error(
                "vx4"@,
                VX4_ENTRY_SIZE,
                data@.len() as int,
            )),
            data@.len() % 32 == 0 ==> (r matches Ok(v) && v@.len() == data@.len() / 32 && forall|
                i: int,
            |
                0 <= i < v@.len() ==> #[trigger] holds_u16s(v@[i].refs, data@, 32 * i)),
    {
        let len = data.len();
        if len % VX4_ENTRY_SIZE != 0 {
            return Err(
                EngineError::TilesetDataTooShort {
                    file: "vx4",
                    expected: VX4_ENTRY_SIZE,
                    actual: len % VX4_ENTRY_SIZE,
                },
            );
        }
        let count = len / VX4_ENTRY_SIZE;
        let mut entries: Vec<Vx4Entry> = Vec::new();
        let mut i: usize = 0;
        while i < count
            invariant
                len == data@.len(),
                count == len / 32,
                i <= count,
                entries@.len() == i,
                forall|k: int| 0 <= k < i ==> #[trigger] holds_u16s(entries@[k].refs, data@, 32 * k),
            decreases count - i,
        {
            assert(32 * i + 32 <= len) by (nonlinear_arith)
                requires
                    i < count,
                    count == len / 32,
            ;
            let refs = read_u16_array(data, i * VX4_ENTRY_SIZE);
            entries.push(Vx4Entry { refs });
            i = i + 1;
        }
        Ok(Vx4Data { entries })
    }

    /// The entry of a megatile.
    pub fn get(&self, index: usize) -> (r: Option<&Vx4Entry>)
        ensures
            index < self@.len() ==> r == Some(&self@[index as int]),
            index >= self@.len() ==> r is None,
    {
        if index < self.entries.len() {
            Some(&self.entries[index])
        } else {
            None
        }
    }

    /// Number of entries.
    pub fn len(&self) -> (n: usize)
        ensures
            n == self@.len(),
    {
        self.entries.len()
    }

    /// Whether there are no entries.
    pub fn is_empty(&self) -> (b: bool)
        ensures
            b == (self@.len() == 0),
    {
        self.entries.len() == 0
    }
}

/// A single 8x8 mini-tile: 64 palette indices, row-major.
#[derive(Debug, Clone)]
pub struct Vr4Entry {
    /// 64 palette indices (8 rows of 8 pixels).
    pub pixels: [u8; 64],
}

impl Vr4Entry {
    /// The pixel at column `x`, row `y`.
    pub fn pixel(&self, x: usize, y: usize) -> (p: u8)
        requires
            x < 8,
            y < 8,
        ensures
            p == self.pixels[8 * y + x],
    {
        self.pixels[y * 8 + x]
    }

    /// Row `y`: its 8 pixels.
    pub fn row(&self, y: usize) -> (r: &[u8])
        requires
            y < 8,
        ensures
            r@ == self.pixels@.subrange(8 * y, 8 * y + 8),
    {
        let all = self.pixels.as_slice();
        &all[y * 8..(y + 1) * 8]
    }
}

/// Parsed VR4 data.
pub struct Vr4Data {
    entries: Vec<Vr4Entry>,
}

impl View for Vr4Data {
    type V = Seq<Vr4Entry>;

    closed spec fn view(&self) -> Seq<Vr4Entry> {
        self.entries@
    }
}

impl Vr4Data {
    /// Parse from raw VR4 file bytes: one 64-byte entry per mini-tile image.
    pub fn from_bytes(data: &[u8]) -> (r: Result<Vr4Data, EngineError>)
        ensures
            data@.len() % 64 != 0 ==> (r matches Err(e) && e@ == size_error(
                "vr4"@,
                VR4_ENTRY_SIZE,
                data@.len() as int,
            )),
            data@.len() % 64 == 0 ==> (r matches Ok(v) && v@.len() == data@.len() / 64 && forall|
                i: int,
            |
                0 <= i < v@.len() ==> #[trigger] v@[i].pixels@ == data@.subrange(
                    64 * i,
                    64 * i + 64,
                )),
    {
        let len = data.len();
        if len % VR4_ENTRY_SIZE != 0 {
            return Err(
                EngineError::TilesetDataTooShort {
                    file: "vr4",
                    expected: VR4_ENTRY_SIZE,
                    actual: len % VR4_ENTRY_SIZE,
                },
            );
        }
        let count = len / VR4_ENTRY_SIZE;
        let mut entries: Vec<Vr4Entry> = Vec::new();
        let mut i: usize = 0;
        while i < count
            invariant
                len == data@.len(),
                count == len / 64,
                i <= count,
                entries@.len() == i,
                forall|k: int|
                    0 <= k < i ==> #[trigger] entries@[k].pixels@ == data@.subrange(
                        64 * k,
                        64 * k + 64,
                    ),
            decreases count - i,
        {
            assert(64 * i + 64 <= len) by (nonlinear_arith)
                requires
                    i < count,
                    count == len / 64,
            ;
            let base = i * VR4_ENTRY_SIZE;
            let mut pixels = [0u8; 64];
            let mut j: usize = 0;
            while j < 64
                invariant
                    j <= 64,
                    len == data@.len(),
                    base + 64 <= data@.len(),
                    forall|k: int| 0 <= k < j ==> #[trigger] pixels[k] == data@[base + k],
                decreases 64 - j,
            {
                pixels[j] = data[base + j];
                j = j + 1;
            }
            assert(pixels@ =~= data@.subrange(base as int, base + 64));
            entries.push(Vr4Entry { pixels });
            i = i + 1;
        }
        Ok(Vr4Data { entries })
    }

    /// The entry of a mini-tile image.
    pub fn get(&self, index: usize) -> (r: Option<&Vr4Entry>)
        ensures
            index < self@.len() ==> r == Some(&self@[index as int]),
            index >= self@.len() ==> r is None,
    {
        if index < self.entries.len() {
            Some(&self.entries[index])
        } else {
            None
        }
    }

    /// Number of entries.
    pub fn len(&self) -> (n: usize)
        ensures
            n == self@.len(),
    {
        self.entries.len()
    }

    /// Whether there are no entries.
    pub fn is_empty(&self) -> (b: bool)
        ensures
            b == (self@.len() == 0),
    {
        self.entries.len() == 0
    }
}

/// A single palette color.
#[derive(Debug, Clone, Copy, PartialEq, Eq, Structural)]
pub struct PaletteColor {
    pub r: u8,
    pub g: u8,
    pub b: u8,
}

impl Default for PaletteColor {
    fn default() -> (c: PaletteColor)
        ensures
            c.r == 0 && c.g == 0 && c.b == 0,
    {
        PaletteColor { r: 0, g: 0, b: 0 }
    }
}

/// A 256-color palette parsed from a WPE file.
#[derive(Debug, Clone)]
pub struct Palette {
    pub colors: [PaletteColor; 256],
}

impl Palette {
    /// Parse from raw WPE file bytes (256 x RGBX; the fourth byte is padding).
    pub fn from_bytes(data: &[u8]) -> (r: Result<Palette, EngineError>)
        ensures
            data@.len() < 1024 ==> (r matches Err(e) && e@ == (EngineErrorView::TilesetDataTooShort {
                file: "wpe"@,
                expected: WPE_SIZE,
                actual: data@.len() as usize,
            })),
            data@.len() >= 1024 ==> (r matches Ok(p) && forall|i: int|
                0 <= i < 256 ==> #[trigger] p.colors[i] == (PaletteColor {
                    r: data@[4 * i],
                    g: data@[4 * i + 1],
                    b: data@[4 * i + 2],
                })),
    {
        let len = data.len();
        if len < WPE_SIZE {
            return Err(
                EngineError::TilesetDataTooShort { file: "wpe", expected: WPE_SIZE, actual: len },
            );
        }
        let mut colors = [PaletteColor { r: 0, g: 0, b: 0 }; 256];
        let mut i: usize = 0;
        while i < 256
            invariant
                i <= 256,
                data@.len() >= 1024,
                forall|k: int|
                    0 <= k < i ==> #[trigger] colors[k] == (PaletteColor {
                        r: data@[4 * k],
                        g: data@[4 * k + 1],
                        b: data@[4 * k + 2],
                    }),
            decreases 256 - i,
        {
            let base = i * 4;
            colors[i] = PaletteColor { r: data[base], g: data[base + 1], b: data[base + 2] };
            i = i + 1;
        }
        Ok(Palette { colors })
    }

    /// The color at a palette index.
    pub fn color(&self, index: u8) -> (c: PaletteColor)
        ensures
            c == self.colors[index as int],
    {
        self.colors[index as usize]
    }

    /// A palette index as RGBA in one `u32` (0xRRGGBBAA, alpha 255).
    pub fn to_rgba(&self, index: u8) -> (v: u32)
        ensures
            v == 0x1000000 * self.colors[index as int].r + 0x10000 * self.colors[index as int].g
                + 0x100 * self.colors[index as int].b + 0xff,
    {
        let c = self.colors[index as usize];
        (c.r as u32) * 0x1000000 + (c.g as u32) * 0x10000 + (c.b as u32) * 0x100 + 0xff
    }
}

} // verus!
