//! Tile types and their collision-segment catalogs.
//!
//! Each tile type maps to a fixed list of line segments (with a padding
//! radius and an elasticity coefficient) relative to the tile's center.
//! Coordinates are in thousandths of a pixel; elasticity is in
//! thousandths (10 = rigid, 950 = bouncy).

use vstd::prelude::*;

use crate::vec2::{v_ok, Vec2};

verus! {

#[derive(Clone, Copy, PartialEq, Eq, Structural, Debug)]
pub struct CollisionSegment {
    /// Start of the segment, relative to the tile center.
    pub rp1: Vec2,
    /// End of the segment, relative to the tile center.
    pub rp2: Vec2,
    /// Padding radius added around the segment.
    pub rad: i64,
    /// Elasticity in thousandths: 10 = rigid, 950 = jumpy.
    pub el: i64,
}

/// A well-formed segment: bounded endpoints, small non-negative radius,
/// elasticity within [0, 1].
pub open spec fn seg_ok(s: CollisionSegment) -> bool {
    &&& v_ok(s.rp1)
    &&& v_ok(s.rp2)
    &&& 0 <= s.rad <= 10_000
    &&& 0 <= s.el <= 1000
}

pub open spec fn segs_ok(s: Seq<CollisionSegment>) -> bool {
    forall|i: int| 0 <= i < s.len() ==> #[trigger] seg_ok(s[i])
}

#[derive(Clone, Copy, PartialEq, Eq, Structural, Debug)]
pub struct EmptyTile;

#[derive(Clone, Copy, PartialEq, Eq, Structural, Debug)]
pub struct UsualArea1Tile;

#[derive(Clone, Copy, PartialEq, Eq, Structural, Debug)]
pub struct JumpyTile;

#[derive(Clone, Copy, PartialEq, Eq, Structural, Debug)]
pub struct Ladder1Tile;

/// The closed set of tile kinds, dispatched by pattern match.
#[derive(Clone, Copy, PartialEq, Eq, Structural, Debug)]
pub enum TileTypeEnum {
    EmptyTile(EmptyTile),
    UsualArea1Tile(UsualArea1Tile),
    JumpyTile(JumpyTile),
    Ladder1Tile(Ladder1Tile),
}

/// Axis-aligned 4-segment box of the solid tile.
pub open spec fn spec_square_segments() -> Seq<CollisionSegment> {
    seq![
        CollisionSegment {
            rp1: Vec2 { x: -3000i64, y: -3000i64 },
            rp2: Vec2 { x: 3000, y: -3000i64 },
            rad: 1000,
            el: 10,
        },
        CollisionSegment {
            rp1: Vec2 { x: 3000, y: -3000i64 },
            rp2: Vec2 { x: 3000, y: 3000 },
            rad: 1000,
            el: 10,
        },
        CollisionSegment {
            rp1: Vec2 { x: 3000, y: 3000 },
            rp2: Vec2 { x: -3000i64, y: 3000 },
            rad: 1000,
            el: 10,
        },
        CollisionSegment {
            rp1: Vec2 { x: -3000i64, y: 3000 },
            rp2: Vec2 { x: -3000i64, y: -3000i64 },
            rad: 1000,
            el: 10,
        },
    ]
}

/// Larger, bouncier box of the jumpy tile.
pub open spec fn spec_jumpy_segments() -> Seq<CollisionSegment> {
    seq![
        CollisionSegment {
            rp1: Vec2 { x: -3500i64, y: -3500i64 },
            rp2: Vec2 { x: 3500, y: -3500i64 },
            rad: 1500,
            el: 950,
        },
        CollisionSegment {
            rp1: Vec2 { x: 3500, y: -3500i64 },
            rp2: Vec2 { x: 3500, y: 3500 },
            rad: 1500,
            el: 950,
        },
        CollisionSegment {
            rp1: Vec2 { x: 3500, y: 3500 },
            rp2: Vec2 { x: -3500i64, y: 3500 },
            rad: 1500,
            el: 950,
        },
        CollisionSegment {
            rp1: Vec2 { x: -3500i64, y: 3500 },
            rp2: Vec2 { x: -3500i64, y: -3500i64 },
            rad: 1500,
            el: 950,
        },
    ]
}

/// Diagonal climbable segment chain of the ladder tile.
pub open spec fn spec_ladder_segments() -> Seq<CollisionSegment> {
    seq![
        CollisionSegment {
            rp1: Vec2 { x: -4000i64, y: -4000i64 },
            rp2: Vec2 { x: 4000, y: 4000 },
            rad: 1500,
            el: 10,
        },
        CollisionSegment {
            rp1: Vec2 { x: 4000, y: 4000 },
            rp2: Vec2 { x: -4000i64, y: 4000 },
            rad: 1500,
            el: 10,
        },
        CollisionSegment {
            rp1: Vec2 { x: -4000i64, y: 4000 },
            rp2: Vec2 { x: -4000i64, y: -4000i64 },
            rad: 1500,
            el: 10,
        },
    ]
}

/// The segment list of a tile kind.
pub open spec fn spec_collision_configuration(t: TileTypeEnum) -> Seq<CollisionSegment> {
    match t {
        TileTypeEnum::EmptyTile(_) => Seq::empty(),
        TileTypeEnum::UsualArea1Tile(_) => spec_square_segments(),
        TileTypeEnum::JumpyTile(_) => spec_jumpy_segments(),
        TileTypeEnum::Ladder1Tile(_) => spec_ladder_segments(),
    }
}

/// Every catalog entry is well formed.
pub proof fn lemma_catalog_ok(t: TileTypeEnum)
    ensures
        segs_ok(spec_collision_configuration(t)),
{
}

impl EmptyTile {
    pub fn collision_configuration(self) -> (r: Vec<CollisionSegment>)
        ensures
            r@ == Seq::<CollisionSegment>::empty(),
    {
        let r: Vec<CollisionSegment> = Vec::new();
        assert(r@ =~= Seq::<CollisionSegment>::empty());
        r
    }
}

impl UsualArea1Tile {
    pub fn collision_configuration(self) -> (r: Vec<CollisionSegment>)
        ensures
            r@ == spec_square_segments(),
    {
        let r = vec![
            CollisionSegment {
                rp1: Vec2 { x: -3000i64, y: -3000i64 },
                rp2: Vec2 { x: 3000, y: -3000i64 },
                rad: 1000,
                el: 10,
            },
            CollisionSegment {
                rp1: Vec2 { x: 3000, y: -3000i64 },
                rp2: Vec2 { x: 3000, y: 3000 },
                rad: 1000,
                el: 10,
            },
            CollisionSegment {
                rp1: Vec2 { x: 3000, y: 3000 },
                rp2: Vec2 { x: -3000i64, y: 3000 },
                rad: 1000,
                el: 10,
            },
            CollisionSegment {
                rp1: Vec2 { x: -3000i64, y: 3000 },
                rp2: Vec2 { x: -3000i64, y: -3000i64 },
                rad: 1000,
                el: 10,
            },
        ];
        assert(r@ =~= spec_square_segments());
        r
    }
}

impl JumpyTile {
    pub fn collision_configuration(self) -> (r: Vec<CollisionSegment>)
        ensures
            r@ == spec_jumpy_segments(),
    {
        let r = vec![
            CollisionSegment {
                rp1: Vec2 { x: -3500i64, y: -3500i64 },
                rp2: Vec2 { x: 3500, y: -3500i64 },
                rad: 1500,
                el: 950,
            },
            CollisionSegment {
                rp1: Vec2 { x: 3500, y: -3500i64 },
                rp2: Vec2 { x: 3500, y: 3500 },
                rad: 1500,
                el: 950,
            },
            CollisionSegment {
                rp1: Vec2 { x: 3500, y: 3500 },
                rp2: Vec2 { x: -3500i64, y: 3500 },
                rad: 1500,
                el: 950,
            },
            CollisionSegment {
                rp1: Vec2 { x: -3500i64, y: 3500 },
                rp2: Vec2 { x: -3500i64, y: -3500i64 },
                rad: 1500,
                el: 950,
            },
        ];
        assert(r@ =~= spec_jumpy_segments());
        r
    }
}

impl Ladder1Tile {
    pub fn collision_configuration(self) -> (r: Vec<CollisionSegment>)
        ensures
            r@ == spec_ladder_segments(),
    {
        let r = vec![
            CollisionSegment {
                rp1: Vec2 { x: -4000i64, y: -4000i64 },
                rp2: Vec2 { x: 4000, y: 4000 },
                rad: 1500,
                el: 10,
            },
            CollisionSegment {
                rp1: Vec2 { x: 4000, y: 4000 },
                rp2: Vec2 { x: -4000i64, y: 4000 },
                rad: 1500,
                el: 10,
            },
            CollisionSegment {
                rp1: Vec2 { x: -4000i64, y: 4000 },
                rp2: Vec2 { x: -4000i64, y: -4000i64 },
                rad: 1500,
                el: 10,
            },
        ];
        assert(r@ =~= spec_ladder_segments());
        r
    }
}

impl TileTypeEnum {
    /// Dispatch over the closed tile set.
    pub fn collision_configuration(self) -> (r: Vec<CollisionSegment>)
        ensures
            r@ == spec_collision_configuration(self),
            segs_ok(r@),
    {
        proof {
            lemma_catalog_ok(self);
        }
        match self {
            TileTypeEnum::EmptyTile(t) => t.collision_configuration(),
            TileTypeEnum::UsualArea1Tile(t) => t.collision_configuration(),
            TileTypeEnum::JumpyTile(t) => t.collision_configuration(),
            TileTypeEnum::Ladder1Tile(t) => t.collision_configuration(),
        }
    }

    /// The tile's sprite, as an opaque ASCII-art handle for the
    /// renderer; the empty tile draws nothing.
    pub fn sprite(self) -> (r: Option<&'static str>)
        ensures
            r == spec_sprite(self),
    {
        match self {
            TileTypeEnum::EmptyTile(_) => None,
            TileTypeEnum::UsualArea1Tile(_) => Some(crate::sprites::SOLIDTILE),
            TileTypeEnum::JumpyTile(_) => Some(crate::sprites::JUMPYTILE),
            TileTypeEnum::Ladder1Tile(_) => Some(crate::sprites::LADDER1),
        }
    }

    /// Colour index used by the map viewer.
    pub fn map_viewer_colour(self) -> (r: u8)
        ensures
            r == spec_map_viewer_colour(self),
    {
        match self {
            TileTypeEnum::EmptyTile(_) => 0,
            TileTypeEnum::UsualArea1Tile(_) => 1,
            TileTypeEnum::JumpyTile(_) => 1,
            TileTypeEnum::Ladder1Tile(_) => 1,
        }
    }
}

pub open spec fn spec_sprite(t: TileTypeEnum) -> Option<&'static str> {
    match t {
        TileTypeEnum::EmptyTile(_) => None,
        TileTypeEnum::UsualArea1Tile(_) => Some(crate::sprites::SOLIDTILE),
        TileTypeEnum::JumpyTile(_) => Some(crate::sprites::JUMPYTILE),
        TileTypeEnum::Ladder1Tile(_) => Some(crate::sprites::LADDER1),
    }
}

pub open spec fn spec_map_viewer_colour(t: TileTypeEnum) -> u8 {
    match t {
        TileTypeEnum::EmptyTile(_) => 0,
        TileTypeEnum::UsualArea1Tile(_) => 1,
        TileTypeEnum::JumpyTile(_) => 1,
        TileTypeEnum::Ladder1Tile(_) => 1,
    }
}

/// Whether two tile values are of the same kind.
pub open spec fn spec_tile_type_enum_eq(a: TileTypeEnum, b: TileTypeEnum) -> bool {
    match (a, b) {
        (TileTypeEnum::EmptyTile(..), TileTypeEnum::EmptyTile(..)) => true,
        (TileTypeEnum::UsualArea1Tile(..), TileTypeEnum::UsualArea1Tile(..)) => true,
        (TileTypeEnum::JumpyTile(..), TileTypeEnum::JumpyTile(..)) => true,
        (TileTypeEnum::Ladder1Tile(..), TileTypeEnum::Ladder1Tile(..)) => true,
        _ => false,
    }
}

pub fn tile_type_enum_eq(a: TileTypeEnum, b: TileTypeEnum) -> (r: bool)
    ensures
        r == spec_tile_type_enum_eq(a, b),
{
    match (a, b) {
        (TileTypeEnum::EmptyTile(..), TileTypeEnum::EmptyTile(..)) => true,
        (TileTypeEnum::UsualArea1Tile(..), TileTypeEnum::UsualArea1Tile(..)) => true,
        (TileTypeEnum::JumpyTile(..), TileTypeEnum::JumpyTile(..)) => true,
        (TileTypeEnum::Ladder1Tile(..), TileTypeEnum::Ladder1Tile(..)) => true,
        _ => false,
    }
}

} // verus!
