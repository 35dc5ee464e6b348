//! World queries: tile lookup and conversion between world pixel
//! positions and tile coordinates.

use vstd::prelude::*;

use crate::camera::{camera_wf, Camera};
use crate::fx::{fx_ok, tdiv, tdiv64};
use crate::tiles::{spec_sprite, EmptyTile, TileTypeEnum};
use crate::unique_items::UniqueItem;
use crate::vec2::{v_ok, Vec2};
use crate::{area_dims_wf, area_meta_wf, cell_code, Area, Level, TilePos};

verus! {

/// One tile to draw: its sprite handle, palette colour and screen
/// position in pixels.
#[derive(Clone, Copy, Debug)]
pub struct TileBlit {
    pub sprite: &'static str,
    pub colour: u8,
    pub px: i64,
    pub py: i64,
}

/// The world: one level, looked up in place.
pub struct World {
    pub level: Level,
}

/// Exclusive tile bounds of the world, x then y.
pub const BOTTOM_RIGHT_TILE_X: u16 = 128;

pub const BOTTOM_RIGHT_TILE_Y: u16 = 64;

/// The tile type the world shows at `(x, y)`: `Empty` outside the
/// bounds, else the room cell's code resolved through the room's
/// metadata.
pub open spec fn spec_get_tile(l: Level, x: u16, y: u16) -> TileTypeEnum {
    if x >= BOTTOM_RIGHT_TILE_X || y >= BOTTOM_RIGHT_TILE_Y {
        TileTypeEnum::EmptyTile(EmptyTile)
    } else {
        let room = (y / 16) * 8 + (x / 16);
        let code = cell_code(l.the_area, room as int, (y % 16) as int, (x % 16) as int);
        let meta = l.the_area.meta@[room as int];
        if code == 0 {
            meta.block_type_sp.unwrap()
        } else if code == 1 {
            meta.block_type_x.unwrap()
        } else if code == 2 {
            meta.block_type_a.unwrap()
        } else {
            meta.block_type_b.unwrap()
        }
    }
}

/// Center of tile `(x, y)` in milli-pixels.
pub open spec fn spec_from_world_coords(pos: TilePos) -> Vec2 {
    Vec2 { x: (8000 * pos.0 + 4000) as i64, y: (8000 * pos.1 + 4000) as i64 }
}

/// Tile coordinates of a milli-pixel position, clamped at the world
/// edges.
pub open spec fn spec_to_world_coords(pos: Vec2) -> TilePos {
    let x: u16 = if pos.x <= 4000 {
        0
    } else if pos.x >= 4000 + 8000 * 128 {
        127
    } else {
        tdiv(pos.x as int, 8000) as u16
    };
    let y: u16 = if pos.y <= 4000 {
        0
    } else if pos.y >= 4000 + 8000 * 64 {
        63
    } else {
        tdiv(pos.y as int, 8000) as u16
    };
    (x, y)
}

proof fn lemma_div_small(a: int, b: int, q: int)
    by (nonlinear_arith)
    requires
        0 <= a < b * q,
        b > 0,
        q > 0,
    ensures
        a / b < q,
{
}

impl World {
    pub fn new(level: Level) -> (r: World)
        ensures
            r.level == level,
    {
        World { level }
    }

    /// Look a tile up; out-of-bounds coordinates give the empty tile.
    pub fn get_tile(&self, pos: TilePos) -> (r: TileTypeEnum)
        requires
            area_dims_wf(self.level.the_area),
            area_meta_wf(self.level.the_area),
        ensures
            r == spec_get_tile(self.level, pos.0, pos.1),
    {
        let (x, y) = pos;
        if x >= BOTTOM_RIGHT_TILE_X || y >= BOTTOM_RIGHT_TILE_Y {
            return TileTypeEnum::EmptyTile(EmptyTile);
        }
        let room_x = x >> 4;
        let room_y = y >> 4;
        let within_room_x = x & 0xF;
        let within_room_y = y & 0xF;
        proof {
            let xv = x;
            let yv = y;
            assert(xv < 128 ==> (xv >> 4) < 8 && (xv & 0xF) < 16 && (xv & 0xF) == xv % 16)
                by (bit_vector);
            assert(yv < 64 ==> (yv >> 4) < 4 && (yv & 0xF) < 16 && (yv & 0xF) == yv % 16)
                by (bit_vector);
            assert(xv < 128 ==> (xv >> 4) == xv / 16) by (bit_vector);
            assert(yv < 64 ==> (yv >> 4) == yv / 16) by (bit_vector);
        }
        let room = (room_y * 8 + room_x) as usize;
        let row = self.level.the_area.rooms[room][within_room_y as usize];
        let sh: u32 = (within_room_x as u32) * 2;
        let code = (row >> sh) & 0b11;
        proof {
            let rv = row;
            let shv = sh;
            assert(((rv >> shv) & 0b11) < 4) by (bit_vector);
        }
        let meta = self.level.the_area.meta[room];
        proof {
            assert(crate::room_cell_ok(
                self.level.the_area,
                room as int,
                within_room_y as int,
                within_room_x as int,
            ));
            assert(cell_code(
                self.level.the_area,
                room as int,
                within_room_y as int,
                within_room_x as int,
            ) == code);
        }
        if code == 0 {
            meta.block_type_sp.unwrap()
        } else if code == 1 {
            meta.block_type_x.unwrap()
        } else if code == 2 {
            meta.block_type_a.unwrap()
        } else {
            meta.block_type_b.unwrap()
        }
    }

    /// Center of a tile in milli-pixel world coordinates.
    pub fn from_world_coords(pos: TilePos) -> (r: Vec2)
        ensures
            r == spec_from_world_coords(pos),
            v_ok(r),
    {
        Vec2 { x: 8000 * (pos.0 as i64) + 4000, y: 8000 * (pos.1 as i64) + 4000 }
    }

    /// Tile coordinates of a world position, clamped at the edges.
    pub fn to_world_coords(pos: Vec2) -> (r: TilePos)
        requires
            v_ok(pos),
        ensures
            r == spec_to_world_coords(pos),
            r.0 <= 128,
            r.1 <= 64,
    {
        let x: u16 = if pos.x <= 4000 {
            0
        } else if pos.x >= 4000 + 8000 * 128 {
            127
        } else {
            proof {
                lemma_div_small(pos.x as int, 8000, 129);
            }
            tdiv64(pos.x, 8000) as u16
        };
        let y: u16 = if pos.y <= 4000 {
            0
        } else if pos.y >= 4000 + 8000 * 64 {
            63
        } else {
            proof {
                lemma_div_small(pos.y as int, 8000, 65);
            }
            tdiv64(pos.y, 8000) as u16
        };
        (x, y)
    }
}

/// What one tile contributes to the frame: nothing if it has no
/// sprite or falls outside the screen margins, else its blit.
pub open spec fn spec_tile_blit(
    l: Level,
    cam_pos: Vec2,
    player_coords: TilePos,
    x: u16,
    y: u16,
) -> Option<TileBlit> {
    match spec_sprite(spec_get_tile(l, x, y)) {
        None => None,
        Some(sprite) => {
            let near = {
                let dx = player_coords.0 - x;
                let dy = player_coords.1 - y;
                -1 <= dx <= 1 && -1 <= dy <= 1
            };
            let colour: u8 = if near {
                4
            } else {
                2
            };
            let ux = 8000 * x - cam_pos.x + 80_000;
            let uy = 8000 * y - cam_pos.y + 80_000;
            if ux < 500 || uy < 500 || ux + 8500 > 160_000 || uy + 8500 >= 160_000 {
                None
            } else {
                Some(TileBlit { sprite, colour, px: tdiv(ux, 1000) as i64, py: tdiv(uy, 1000) as i64 })
            }
        },
    }
}

/// The 19 x 19 tile neighborhood of the camera, row-major from
/// linear index `idx`, with each visible tile's blit appended.
pub open spec fn spec_draw_fold(
    l: Level,
    cam_pos: Vec2,
    player_coords: TilePos,
    minx: u16,
    miny: u16,
    idx: int,
    acc: Seq<TileBlit>,
) -> Seq<TileBlit>
    decreases 361 - idx,
{
    if idx < 0 || idx >= 361 {
        acc
    } else {
        let x = (minx + (idx % 19)) as u16;
        let y = (miny + (idx / 19)) as u16;
        let acc2 = match spec_tile_blit(l, cam_pos, player_coords, x, y) {
            None => acc,
            Some(b) => acc.push(b),
        };
        spec_draw_fold(l, cam_pos, player_coords, minx, miny, idx + 1, acc2)
    }
}

/// What one room contributes to the items-around scan: its (up to
/// two) items appended to the accumulator.
pub open spec fn spec_room_items(a: Area, roomidx: int, acc: (Seq<Option<UniqueItem>>, int)) -> (
    Seq<Option<UniqueItem>>,
    int,
) {
    let acc1 = match a.uniques@[roomidx]@[0] {
        Some(item) => if acc.1 < 18 {
            (acc.0.update(acc.1, Some(item)), acc.1 + 1)
        } else {
            acc
        },
        None => acc,
    };
    match a.uniques@[roomidx]@[1] {
        Some(item) => if acc1.1 < 18 {
            (acc1.0.update(acc1.1, Some(item)), acc1.1 + 1)
        } else {
            acc1
        },
        None => acc1,
    }
}

/// The row-major scan of the room neighborhood from linear index
/// `idx` over `total` rooms of `nrx` columns starting at
/// `(minrx, minry)`.
pub open spec fn spec_items_around_fold(
    a: Area,
    minrx: int,
    minry: int,
    nrx: int,
    idx: int,
    total: int,
    acc: (Seq<Option<UniqueItem>>, int),
) -> (Seq<Option<UniqueItem>>, int)
    decreases total - idx,
{
    if idx < 0 || idx >= total || nrx <= 0 {
        acc
    } else {
        let roomidx = (minry + idx / nrx) * 8 + (minrx + idx % nrx);
        spec_items_around_fold(
            a,
            minrx,
            minry,
            nrx,
            idx + 1,
            total,
            spec_room_items(a, roomidx, acc),
        )
    }
}

/// The unique items recorded in the 3 x 3 room neighborhood of a
/// tile, padded with `None` to eighteen slots; all `None` outside the
/// world bounds.
pub open spec fn spec_items_around(l: Level, x: u16, y: u16) -> Seq<Option<UniqueItem>> {
    let empty = Seq::new(18, |j: int| None::<UniqueItem>);
    if x >= BOTTOM_RIGHT_TILE_X || y >= BOTTOM_RIGHT_TILE_Y {
        empty
    } else {
        let room_x = (x / 16) as int;
        let room_y = (y / 16) as int;
        let minrx = if room_x == 0 {
            0int
        } else {
            room_x - 1
        };
        let minry = if room_y == 0 {
            0int
        } else {
            room_y - 1
        };
        let maxrx = if room_x + 1 >= 8 {
            7int
        } else {
            room_x + 1
        };
        let maxry = if room_y + 1 >= 4 {
            3int
        } else {
            room_y + 1
        };
        let nrx = maxrx - minrx + 1;
        let nry = maxry - minry + 1;
        spec_items_around_fold(l.the_area, minrx, minry, nrx, 0, nry * nrx, (empty, 0)).0
    }
}

impl World {
    /// The tiles to draw around the camera: the 19 x 19 neighborhood
    /// of the camera's tile, with near-player tiles highlighted.
    pub fn draw(&self, _global_frame: u8, player_coords: TilePos, cam: &Camera) -> (r: Vec<
        TileBlit,
    >)
        requires
            area_dims_wf(self.level.the_area),
            area_meta_wf(self.level.the_area),
            camera_wf(*cam),
        ensures
            r@ == spec_draw_fold(
                self.level,
                cam.pos,
                player_coords,
                spec_draw_min(spec_to_world_coords(cam.pos).0),
                spec_draw_min(spec_to_world_coords(cam.pos).1),
                0,
                Seq::empty(),
            ),
    {
        let me = World::to_world_coords(cam.pos);
        let (camx, camy) = me;
        let minx: u16 = if camx < 9 {
            0
        } else {
            camx - 9
        };
        let miny: u16 = if camy < 9 {
            0
        } else {
            camy - 9
        };
        let mut r: Vec<TileBlit> = Vec::new();
        assert(r@ =~= Seq::<TileBlit>::empty());
        let mut idx: u16 = 0;
        while idx < 361
            invariant
                area_dims_wf(self.level.the_area),
                area_meta_wf(self.level.the_area),
                camera_wf(*cam),
                idx <= 361,
                minx <= 119,
                miny <= 55,
                spec_draw_fold(self.level, cam.pos, player_coords, minx, miny, 0, Seq::empty())
                    == spec_draw_fold(
                    self.level,
                    cam.pos,
                    player_coords,
                    minx,
                    miny,
                    idx as int,
                    r@,
                ),
            decreases 361 - idx,
        {
            let x: u16 = minx + idx % 19;
            let y: u16 = miny + idx / 19;
            let tile = self.get_tile((x, y));
            if let Some(sprite) = tile.sprite() {
                let pdx: i32 = player_coords.0 as i32 - x as i32;
                let pdy: i32 = player_coords.1 as i32 - y as i32;
                let near = -1 <= pdx && pdx <= 1 && -1 <= pdy && pdy <= 1;
                let colour: u8 = if near {
                    4
                } else {
                    2
                };
                let ux: i64 = 8000 * (x as i64) - cam.pos.x + 80_000;
                let uy: i64 = 8000 * (y as i64) - cam.pos.y + 80_000;
                if !(ux < 500 || uy < 500 || ux + 8500 > 160_000 || uy + 8500 >= 160_000) {
                    r.push(
                        TileBlit { sprite, colour, px: tdiv64(ux, 1000), py: tdiv64(uy, 1000) },
                    );
                }
            }
            idx = idx + 1;
        }
        r
    }

    /// The unique items recorded in the rooms around a tile.
    pub fn get_unique_items_around_tile(&self, pos: TilePos) -> (r: Vec<Option<UniqueItem>>)
        requires
            area_dims_wf(self.level.the_area),
        ensures
            r@ == spec_items_around(self.level, pos.0, pos.1),
    {
        let (x, y) = pos;
        let mut found: Vec<Option<UniqueItem>> = Vec::new();
        let mut k: usize = 0;
        while k < 18
            invariant
                k <= 18,
                found@.len() == k,
                forall|j: int| 0 <= j < k ==> found@[j] is None,
            decreases 18 - k,
        {
            found.push(None);
            k = k + 1;
        }
        assert(found@ =~= Seq::new(18, |j: int| None::<UniqueItem>));

        if x >= BOTTOM_RIGHT_TILE_X || y >= BOTTOM_RIGHT_TILE_Y {
            return found;
        }

        let room_x = x / 16;
        let room_y = y / 16;
        let minrx: u16 = if room_x == 0 {
            0
        } else {
            room_x - 1
        };
        let minry: u16 = if room_y == 0 {
            0
        } else {
            room_y - 1
        };
        let maxrx: u16 = if room_x + 1 >= 8 {
            7
        } else {
            room_x + 1
        };
        let maxry: u16 = if room_y + 1 >= 4 {
            3
        } else {
            room_y + 1
        };
        let nrx: u16 = maxrx - minrx + 1;
        let nry: u16 = maxry - minry + 1;
        assert(1 <= nrx <= 3 && 1 <= nry <= 3);
        proof {
            assert((nry as int) * (nrx as int) <= 9) by (nonlinear_arith)
                requires
                    0 <= nry as int <= 3,
                    0 <= nrx as int <= 3,
            ;
        }
        let total: u16 = nry * nrx;
        let ghost empty = Seq::new(18, |j: int| None::<UniqueItem>);

        let mut i: usize = 0;
        let mut idx: u16 = 0;
        while idx < total
            invariant
                area_dims_wf(self.level.the_area),
                idx <= total,
                total == nry * nrx,
                1 <= nrx <= 3,
                1 <= nry <= 3,
                minrx + nrx <= 8,
                minry + nry <= 4,
                i <= 18,
                found@.len() == 18,
                spec_items_around_fold(
                    self.level.the_area,
                    minrx as int,
                    minry as int,
                    nrx as int,
                    0,
                    total as int,
                    (empty, 0),
                ) == spec_items_around_fold(
                    self.level.the_area,
                    minrx as int,
                    minry as int,
                    nrx as int,
                    idx as int,
                    total as int,
                    (found@, i as int),
                ),
            decreases total - idx,
        {
            proof {
                let idxv = idx as int;
                let nrxv = nrx as int;
                let nryv = nry as int;
                assert(idxv / nrxv < nryv && idxv % nrxv < nrxv) by (nonlinear_arith)
                    requires
                        0 <= idxv < nryv * nrxv,
                        0 < nrxv,
                ;
            }
            let ry: u16 = minry + idx / nrx;
            let rx: u16 = minrx + idx % nrx;
            let roomidx = (ry * 8 + rx) as usize;
            proof {
                assert(self.level.the_area.uniques@[roomidx as int]@.len() == 2);
            }
            let slot0 = self.level.the_area.uniques[roomidx][0];
            if let Some(item) = slot0 {
                if i < 18 {
                    found.set(i, Some(item));
                    i = i + 1;
                }
            }
            let slot1 = self.level.the_area.uniques[roomidx][1];
            if let Some(item) = slot1 {
                if i < 18 {
                    found.set(i, Some(item));
                    i = i + 1;
                }
            }
            idx = idx + 1;
        }
        found
    }
}

/// The lowest tile coordinate of the camera neighborhood.
pub open spec fn spec_draw_min(c: u16) -> u16 {
    if c < 9 {
        0u16
    } else {
        (c - 9) as u16
    }
}

/// Converting a tile coordinate within bounds to its pixel center and
/// back returns the same tile coordinate.
pub proof fn lemma_world_coords_round_trip(tx: u16, ty: u16)
    requires
        tx < 128,
        ty < 64,
    ensures
        spec_to_world_coords(spec_from_world_coords((tx, ty))) == (tx, ty),
{
    let p = spec_from_world_coords((tx, ty));
    assert((8000 * tx + 4000) / 8000 == tx as int && (8000 * ty + 4000) / 8000 == ty as int)
        by (nonlinear_arith);
    if tx > 0 {
        assert(p.x > 4000);
    }
    if ty > 0 {
        assert(p.y > 4000);
    }
}

} // verus!
