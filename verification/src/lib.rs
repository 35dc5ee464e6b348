//! Physics and collision core of a small tile-based 2D platformer,
//! together with the level-data compiler and bookkeeping layers around it.
//!
//! All world quantities are held in fixed-point "milli" units: an `i64`
//! value of 1000 stands for one pixel. The world grid is 128 x 64 tiles
//! of 8 x 8 pixels each, grouped into an 8 x 4 block of 16 x 16-tile
//! rooms.

use vstd::prelude::*;

pub mod camera;
pub mod fx;
pub mod game;
pub mod level;
pub mod mapview;
pub mod player;
pub mod sprites;
pub mod tiles;
pub mod unique_items;
pub mod utils;
pub mod vec2;
pub mod world;

use crate::tiles::TileTypeEnum;
use crate::unique_items::UniqueItem;

verus! {

/// Integer tile coordinates, x then y.
pub type TilePos = (u16, u16);

/// Gamepad button bits, a fixed platform convention.
pub const BUTTON_1: u8 = 1;

/// The jump-aim button.
pub const BUTTON_2: u8 = 2;

pub const BUTTON_LEFT: u8 = 16;

pub const BUTTON_RIGHT: u8 = 32;

pub const BUTTON_UP: u8 = 64;

pub const BUTTON_DOWN: u8 = 128;

/// Side length of the square framebuffer in pixels.
pub const SCREEN_SIZE: u32 = 160;

/// One room: 16 rows of 16 two-bit cells, two `u32` words per tile row.
pub type RoomData = Vec<u32>;

pub const MAX_UNIQUE_ITEM_POSITIONS: usize = 16;

pub const MAX_UNIQUE_ITEMS_PER_ROOM: usize = 2;

pub type UniqueItemPositions = Vec<Option<UniqueItemPosition>>;

pub type UniqueItemsInThisRoom = Vec<Option<UniqueItem>>;

/// Which tile type each two-bit cell code of a room stands for.
#[derive(Clone, Copy)]
pub struct RoomMetadata {
    pub block_type_sp: Option<TileTypeEnum>,
    pub block_type_x: Option<TileTypeEnum>,
    pub block_type_a: Option<TileTypeEnum>,
    pub block_type_b: Option<TileTypeEnum>,
}

/// An 8 x 4 block of rooms with their cell codes, code meanings and
/// the unique items found in each room.
pub struct Area {
    pub rooms: Vec<RoomData>,
    pub meta: Vec<RoomMetadata>,
    pub uniques: Vec<UniqueItemsInThisRoom>,
}

/// ASCII source of an area together with the lookup tables that give
/// the special characters their meaning.
pub struct AreaSource {
    pub cells: Vec<u8>,
    pub empty_tile_style: TileTypeEnum,
    pub solid_tile_style: TileTypeEnum,
    pub char_lookup: Vec<CharDescription>,
    pub tile_lookup: Vec<MappingBetweenCharAndTileType>,
    pub item_lookup: Vec<MappingBetweenCharAndItem>,
}

/// Two-bit cell codes of the room bitfields.
#[derive(Clone, Copy, PartialEq, Eq, Structural, Debug)]
pub enum LowlevelCellType {
    Empty,
    Solid,
    CustomA,
    CustomB,
    Special,
}

pub open spec fn spec_ll_code(t: LowlevelCellType) -> u8 {
    match t {
        LowlevelCellType::Empty => 0,
        LowlevelCellType::Solid => 1,
        LowlevelCellType::CustomA => 2,
        LowlevelCellType::CustomB => 3,
        LowlevelCellType::Special => 0,
    }
}

impl LowlevelCellType {
    /// The two-bit code written into the room bitfield for this cell type.
    pub fn ll_code(&self) -> (r: u8)
        ensures
            r == spec_ll_code(*self),
    {
        match self {
            LowlevelCellType::Empty => 0b00,
            LowlevelCellType::Solid => 0b01,
            LowlevelCellType::CustomA => 0b10,
            LowlevelCellType::CustomB => 0b11,
            LowlevelCellType::Special => 0b00,
        }
    }
}

/// Meaning of one map character: its upper and lower half-tile cell types.
#[derive(Clone, Copy, PartialEq, Eq, Structural, Debug)]
pub struct CharDescription {
    pub chr: u8,
    pub upper: LowlevelCellType,
    pub lower: LowlevelCellType,
}

/// A unique-item character found while parsing, before item lookup.
#[derive(Clone, Copy, Debug)]
pub struct UniqueItemPositionLowlevel {
    pub chr: u8,
    pub pos: TilePos,
}

/// A unique item's resolved position.
#[derive(Clone, Copy, Debug)]
pub struct UniqueItemPosition {
    pub item: UniqueItem,
    pub pos: TilePos,
    /// For temporary position overrides during development.
    pub priority: bool,
}

#[derive(Clone, Copy, PartialEq, Eq, Structural, Debug)]
pub struct MappingBetweenCharAndItem {
    pub chr: u8,
    pub item: UniqueItem,
    pub priority: bool,
}

#[derive(Clone, Copy, PartialEq, Eq, Structural)]
pub struct MappingBetweenCharAndTileType {
    pub chr: u8,
    pub tt: TileTypeEnum,
}

/// A complete level: one area and the resolved unique-item positions.
pub struct Level {
    pub the_area: Area,
    pub unique_items: Vec<(UniqueItem, TilePos)>,
}

/// The grids of an area have their fixed dimensions.
pub open spec fn area_dims_wf(a: Area) -> bool {
    &&& a.rooms@.len() == 32
    &&& forall|i: int| 0 <= i < 32 ==> #[trigger] a.rooms@[i]@.len() == 16
    &&& a.meta@.len() == 32
    &&& a.uniques@.len() == 32
    &&& forall|i: int| 0 <= i < 32 ==> #[trigger] a.uniques@[i]@.len() == MAX_UNIQUE_ITEMS_PER_ROOM
}

/// The two-bit code of the cell at `row`, `col` of room `room`.
pub open spec fn cell_code(a: Area, room: int, row: int, col: int) -> u32 {
    (a.rooms@[room]@[row] >> (col * 2) as u32) & 3
}

/// The cell at `row`, `col` of room `room` names a tile type that the
/// room's metadata defines.
pub open spec fn room_cell_ok(a: Area, room: int, row: int, col: int) -> bool {
    let code = cell_code(a, room, row, col);
    let meta = a.meta@[room];
    &&& meta.block_type_sp is Some
    &&& meta.block_type_x is Some
    &&& (code == 2 ==> meta.block_type_a is Some)
    &&& (code == 3 ==> meta.block_type_b is Some)
}

/// Every cell code of every room names a tile type that the room's
/// metadata defines.
pub open spec fn area_meta_wf(a: Area) -> bool {
    forall|room: int, row: int, col: int|
        0 <= room < 32 && 0 <= row < 16 && 0 <= col < 16 ==> #[trigger] room_cell_ok(
            a,
            room,
            row,
            col,
        )
}

/// Runtime check of `area_meta_wf`, so that construction needs no
/// inductive argument over the parse.
pub fn area_meta_check(a: &Area) -> (b: bool)
    requires
        area_dims_wf(*a),
    ensures
        b == area_meta_wf(*a),
{
    let mut room: usize = 0;
    while room < 32
        invariant
            area_dims_wf(*a),
            room <= 32,
            forall|r2: int, row: int, col: int|
                0 <= r2 < room && 0 <= row < 16 && 0 <= col < 16 ==> #[trigger] room_cell_ok(
                    *a,
                    r2,
                    row,
                    col,
                ),
        decreases 32 - room,
    {
        let meta = a.meta[room];
        if meta.block_type_sp.is_none() || meta.block_type_x.is_none() {
            proof {
                assert(!room_cell_ok(*a, room as int, 0, 0));
            }
            return false;
        }
        let mut row: usize = 0;
        while row < 16
            invariant
                area_dims_wf(*a),
                room < 32,
                row <= 16,
                a.meta@[room as int].block_type_sp is Some,
                a.meta@[room as int].block_type_x is Some,
                forall|r2: int, row2: int, col: int|
                    0 <= r2 < room && 0 <= row2 < 16 && 0 <= col < 16 ==> #[trigger] room_cell_ok(
                        *a,
                        r2,
                        row2,
                        col,
                    ),
                forall|row2: int, col: int|
                    0 <= row2 < row && 0 <= col < 16 ==> #[trigger] room_cell_ok(
                        *a,
                        room as int,
                        row2,
                        col,
                    ),
            decreases 16 - row,
        {
            let word = a.rooms[room][row];
            let mut col: usize = 0;
            while col < 16
                invariant
                    area_dims_wf(*a),
                    room < 32,
                    row < 16,
                    col <= 16,
                    word == a.rooms@[room as int]@[row as int],
                    a.meta@[room as int].block_type_sp is Some,
                    a.meta@[room as int].block_type_x is Some,
                    forall|col2: int|
                        0 <= col2 < col ==> #[trigger] room_cell_ok(
                            *a,
                            room as int,
                            row as int,
                            col2,
                        ),
                decreases 16 - col,
            {
                let sh: u32 = (col as u32) * 2;
                let code = (word >> sh) & 0b11;
                proof {
                    assert(cell_code(*a, room as int, row as int, col as int) == code);
                }
                if code == 2 && a.meta[room].block_type_a.is_none() {
                    proof {
                        assert(!room_cell_ok(*a, room as int, row as int, col as int));
                    }
                    return false;
                }
                if code == 3 && a.meta[room].block_type_b.is_none() {
                    proof {
                        assert(!room_cell_ok(*a, room as int, row as int, col as int));
                    }
                    return false;
                }
                proof {
                    assert(room_cell_ok(*a, room as int, row as int, col as int));
                }
                col = col + 1;
            }
            row = row + 1;
        }
        room = room + 1;
    }
    true
}

/// Some entry of the level's position table names `it`.
pub open spec fn item_listed(l: Level, it: UniqueItem) -> bool {
    exists|k: int| 0 <= k < l.unique_items@.len() && (#[trigger] l.unique_items@[k]).0 == it
}

/// Every unique item has an entry in the level's position table.
pub open spec fn level_items_complete(l: Level) -> bool {
    forall|it: UniqueItem| #[trigger] item_listed(l, it)
}

/// A fully well-formed level.
pub open spec fn level_wf(l: Level) -> bool {
    &&& area_dims_wf(l.the_area)
    &&& area_meta_wf(l.the_area)
    &&& level_items_complete(l)
}

/// The position recorded for `it` from entry `k` onward.
pub open spec fn spec_find_item_pos(s: Seq<(UniqueItem, TilePos)>, it: UniqueItem, k: int) -> TilePos
    decreases s.len() - k,
{
    if k < 0 || k >= s.len() {
        (0u16, 0u16)
    } else if s[k].0 == it {
        s[k].1
    } else {
        spec_find_item_pos(s, it, k + 1)
    }
}

/// The first position the level records for `it`.
pub open spec fn spec_unique_item_pos(l: Level, it: UniqueItem) -> TilePos {
    spec_find_item_pos(l.unique_items@, it, 0)
}

/// Which game mode runs the next tick.
#[derive(Clone, Copy, PartialEq, Eq, Structural, Debug)]
pub enum MainState {
    Game,
    MapView,
}

} // verus!
