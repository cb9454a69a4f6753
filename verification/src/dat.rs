//! Game data tables from `flingy.dat` and `units.dat`.

use vstd::prelude::*;
use crate::bytes::{le16_at, le32_at, read_i16_le, read_i32_le};
use crate::error::{EngineError, EngineErrorView};

verus! {

/// Number of flingy types in `flingy.dat`.
pub const FLINGY_COUNT: usize = 209;

/// Number of unit types in `units.dat`.
pub const UNIT_TYPE_COUNT: usize = 228;

/// Minimum size of `flingy.dat`: seven parallel arrays of 209 entries
/// (sprite u16, top speed i32, acceleration i16, halt distance i32,
/// turn rate u8, unused u8, movement type u8).
pub const FLINGY_DAT_MIN_SIZE: usize = 3135;

/// Offset of the sprite array in `flingy.dat`.
pub const FLINGY_SPRITE_OFFSET: usize = 0;

/// Offset of the top speed array.
pub const FLINGY_TOP_SPEED_OFFSET: usize = FLINGY_SPRITE_OFFSET + FLINGY_COUNT * 2;

/// Offset of the acceleration array.
pub const FLINGY_ACCEL_OFFSET: usize = FLINGY_TOP_SPEED_OFFSET + FLINGY_COUNT * 4;

/// Offset of the halt distance array.
pub const FLINGY_HALT_OFFSET: usize = FLINGY_ACCEL_OFFSET + FLINGY_COUNT * 2;

/// Offset of the turn rate array.
pub const FLINGY_TURN_RATE_OFFSET: usize = FLINGY_HALT_OFFSET + FLINGY_COUNT * 4;

/// Offset of the unused array.
pub const FLINGY_UNUSED_OFFSET: usize = FLINGY_TURN_RATE_OFFSET + FLINGY_COUNT;

/// Offset of the movement type array.
pub const FLINGY_MOVE_TYPE_OFFSET: usize = FLINGY_UNUSED_OFFSET + FLINGY_COUNT;

/// Flingy movement parameters for one flingy type.
#[derive(Debug, Clone, Copy)]
pub struct FlingyType {
    pub top_speed: i32,
    pub acceleration: i16,
    pub halt_distance: i32,
    pub turn_rate: u8,
    pub movement_type: u8,
}

impl Default for FlingyType {
    fn default() -> (f: FlingyType)
        ensures
            f == (FlingyType {
                top_speed: 0,
                acceleration: 0,
                halt_distance: 0,
                turn_rate: 0,
                movement_type: 0,
            }),
    {
        FlingyType { top_speed: 0, acceleration: 0, halt_distance: 0, turn_rate: 0, movement_type: 0 }
    }
}

/// Flingy type `i` as stored in the parallel arrays of `flingy.dat`.
pub open spec fn flingy_at(data: Seq<u8>, i: int) -> FlingyType {
    FlingyType {
        top_speed: le32_at(data, 418 + 4 * i) as i32,
        acceleration: le16_at(data, 1254 + 2 * i) as i16,
        halt_distance: le32_at(data, 1672 + 4 * i) as i32,
        turn_rate: data[2508 + i],
        movement_type: data[2926 + i],
    }
}

/// `flingy.dat` is seven arrays of one entry per flingy type laid end to end:
/// 2-byte sprites, 4-byte top speeds, 2-byte accelerations, 4-byte halt
/// distances, 1-byte turn rates, 1-byte unused values and 1-byte movement
/// types, so that the whole is 15 bytes per type; flingy type `i` takes entry
/// `i` of each array (numbers little-endian, speeds and distances signed).
pub proof fn lemma_flingy_layout(data: Seq<u8>, i: int)
    ensures
        FLINGY_DAT_MIN_SIZE == 15 * FLINGY_COUNT,
        flingy_at(data, i).top_speed == le32_at(data, 2 * FLINGY_COUNT + 4 * i) as i32,
        flingy_at(data, i).acceleration == le16_at(data, 6 * FLINGY_COUNT + 2 * i) as i16,
        flingy_at(data, i).halt_distance == le32_at(data, 8 * FLINGY_COUNT + 4 * i) as i32,
        flingy_at(data, i).turn_rate == data[12 * FLINGY_COUNT + i],
        flingy_at(data, i).movement_type == data[14 * FLINGY_COUNT + i],
{
}

/// Parse the 209 flingy types of `flingy.dat`.
pub fn parse_flingy_dat(data: &[u8]) -> (r: Result<Vec<FlingyType>, EngineError>)
    ensures
        data@.len() < 3135 ==> (r matches Err(e) && e@ == (EngineErrorView::DatTooShort {
            file: "flingy.dat"@,
            expected: FLINGY_DAT_MIN_SIZE,
            actual: data@.len() as usize,
        })),
        data@.len() >= 3135 ==> (r matches Ok(v) && v@.len() == 209 && forall|i: int|
            0 <= i < 209 ==> #[trigger] v@[i] == flingy_at(data@, i)),
{
    let len = data.len();
    if len < FLINGY_DAT_MIN_SIZE {
        return Err(
            EngineError::DatTooShort { file: "flingy.dat", expected: FLINGY_DAT_MIN_SIZE, actual: len },
        );
    }
    let mut types: Vec<FlingyType> = Vec::new();
    let mut i: usize = 0;
    while i < FLINGY_COUNT
        invariant
            len == data@.len(),
            len >= 3135,
            i <= 209,
            types@.len() == i,
            forall|k: int| 0 <= k < i ==> #[trigger] types@[k] == flingy_at(data@, k),
        decreases 209 - i,
    {
        types.push(
            FlingyType {
                top_speed: read_i32_le(data, FLINGY_TOP_SPEED_OFFSET + i * 4),
                acceleration: read_i16_le(data, FLINGY_ACCEL_OFFSET + i * 2),
                halt_distance: read_i32_le(data, FLINGY_HALT_OFFSET + i * 4),
                turn_rate: data[FLINGY_TURN_RATE_OFFSET + i],
                movement_type: data[FLINGY_MOVE_TYPE_OFFSET + i],
            },
        );
        i = i + 1;
    }
    Ok(types)
}

/// The flingy id of each unit type: the first 228 bytes of `units.dat`.
pub fn parse_units_dat_flingy(data: &[u8]) -> (r: Result<Vec<u8>, EngineError>)
    ensures
        data@.len() < 228 ==> (r matches Err(e) && e@ == (EngineErrorView::DatTooShort {
            file: "units.dat"@,
            expected: UNIT_TYPE_COUNT,
            actual: data@.len() as usize,
        })),
        data@.len() >= 228 ==> (r matches Ok(v) && v@ == data@.take(228)),
{
    let len = data.len();
    if len < UNIT_TYPE_COUNT {
        return Err(
            EngineError::DatTooShort { file: "units.dat", expected: UNIT_TYPE_COUNT, actual: len },
        );
    }
    let mut ids: Vec<u8> = Vec::new();
    crate::section::append_bytes(&mut ids, &data[0..UNIT_TYPE_COUNT]);
    Ok(ids)
}

/// Parsed game data tables.
pub struct GameData {
    pub flingy_types: Vec<FlingyType>,
    /// Maps unit_type_id (0-227) -> flingy_type_id (0-208).
    pub unit_flingy: Vec<u8>,
}

impl GameData {
    /// Parse from raw `units.dat` and `flingy.dat` file bytes; a `flingy.dat`
    /// error comes first.
    pub fn from_dat(units_dat: &[u8], flingy_dat: &[u8]) -> (r: Result<GameData, EngineError>)
        ensures
            flingy_dat@.len() < 3135 ==> (r matches Err(e) && e@ == (EngineErrorView::DatTooShort {
                file: "flingy.dat"@,
                expected: FLINGY_DAT_MIN_SIZE,
                actual: flingy_dat@.len() as usize,
            })),
            flingy_dat@.len() >= 3135 && units_dat@.len() < 228 ==> (r matches Err(e) && e@ == (
            EngineErrorView::DatTooShort {
                file: "units.dat"@,
                expected: UNIT_TYPE_COUNT,
                actual: units_dat@.len() as usize,
            })),
            flingy_dat@.len() >= 3135 && units_dat@.len() >= 228 ==> (r matches Ok(g)
                && g.unit_flingy@ == units_dat@.take(228) && g.flingy_types@.len() == 209 && forall|
                i: int,
            |
                0 <= i < 209 ==> #[trigger] g.flingy_types@[i] == flingy_at(flingy_dat@, i)),
    {
        let flingy_types = match parse_flingy_dat(flingy_dat) {
            Ok(v) => v,
            Err(e) => return Err(e),
        };
        let unit_flingy = match parse_units_dat_flingy(units_dat) {
            Ok(v) => v,
            Err(e) => return Err(e),
        };
        Ok(GameData { flingy_types, unit_flingy })
    }

    /// The flingy type of a unit type, if both ids are in range.
    pub fn flingy_for_unit(&self, unit_type: u16) -> (r: Option<&FlingyType>)
        ensures
            unit_type < self.unit_flingy@.len() && self.unit_flingy@[unit_type as int]
                < self.flingy_types@.len() ==> r == Some(
                &self.flingy_types@[self.unit_flingy@[unit_type as int] as int],
            ),
            !(unit_type < self.unit_flingy@.len() && self.unit_flingy@[unit_type as int]
                < self.flingy_types@.len()) ==> r is None,
    {
        let u = unit_type as usize;
        if u >= self.unit_flingy.len() {
            return None;
        }
        let flingy_id = self.unit_flingy[u] as usize;
        if flingy_id < self.flingy_types.len() {
            Some(&self.flingy_types[flingy_id])
        } else {
            None
        }
    }
}

} // verus!
