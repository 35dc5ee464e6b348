//! The map viewer's state. Its drawing runs outside the core; the
//! core keeps the cursor state and the tile clamping rule.

use vstd::prelude::*;

use crate::TilePos;

verus! {

pub struct MapViewer {
    /// Tile shown in the upper-left corner; the all-ones sentinel
    /// means "not yet placed around the player".
    pub upper_left_tile: TilePos,
    /// Frame counter driving the item blink.
    pub blinker: u8,
}

/// The clamping rule of the viewer origin; mirrors
/// `MapViewer::clamp_tile` exactly. The viewer window is larger than
/// the world in both axes, so both coordinates settle at zero, and
/// the result is aligned down to a multiple of four.
pub open spec fn spec_clamp_tile(pos: (i32, i32)) -> TilePos {
    let x0: int = if pos.0 >= 128 - 160 {
        128 - 160 - 1
    } else {
        pos.0 as int
    };
    let y0: int = if pos.1 >= 64 - 160 {
        64 - 160 - 1
    } else {
        pos.1 as int
    };
    let x1: int = if x0 < 0 {
        0
    } else {
        x0
    };
    let y1: int = if y0 < 0 {
        0
    } else {
        y0
    };
    (((x1 as u16) & !0b11) as u16, ((y1 as u16) & !0b11) as u16)
}

impl MapViewer {
    pub fn new() -> (r: MapViewer)
        ensures
            r.upper_left_tile == (u16::MAX, u16::MAX),
            r.blinker == 0,
    {
        MapViewer { upper_left_tile: (u16::MAX, u16::MAX), blinker: 0 }
    }

    /// Clamp a candidate viewer origin into the world, aligned to
    /// four tiles.
    pub fn clamp_tile(pos: (i32, i32)) -> (r: TilePos)
        ensures
            r == spec_clamp_tile(pos),
    {
        let mut x: i32 = pos.0;
        let mut y: i32 = pos.1;
        if x >= 128 - 160 {
            x = 128 - 160 - 1;
        }
        if y >= 64 - 160 {
            y = 64 - 160 - 1;
        }
        if x < 0 {
            x = 0;
        }
        if y < 0 {
            y = 0;
        }
        ((x as u16) & !0b11, (y as u16) & !0b11)
    }
}

} // verus!
