//! The built-in level: compilation, tile lookup, coordinates and the
//! unique-item table.

use rustmw::camera::Camera;
use rustmw::tiles::TileTypeEnum;
use rustmw::unique_items::UniqueItem;
use rustmw::vec2::Vec2;
use rustmw::world::World;
use rustmw::Level;

fn world() -> World {
    World::new(Level::new().expect("the built-in level compiles"))
}

fn is_solid(t: TileTypeEnum) -> bool {
    matches!(t, TileTypeEnum::UsualArea1Tile(_))
}

fn is_empty(t: TileTypeEnum) -> bool {
    matches!(t, TileTypeEnum::EmptyTile(_))
}

#[test]
fn level_compiles() {
    assert!(Level::new().is_some());
}

#[test]
fn unique_item_positions() {
    let level = Level::new().unwrap();
    // The priority marker overrides the plain player start.
    assert_eq!(level.unique_item_pos(UniqueItem::PlayerStart), (65, 36));
    assert_eq!(level.unique_item_pos(UniqueItem::FeatureSmallSize), (45, 36));
    assert_eq!(level.unique_item_pos(UniqueItem::CrateLog), (67, 37));
    assert_eq!(level.unique_item_pos(UniqueItem::InfoWelcome), (60, 45));
    assert_eq!(UniqueItem::CrateLog.get_pos(&level), (67, 37));
}

#[test]
fn tiles_match_the_map() {
    let w = world();
    assert!(is_solid(w.get_tile((0, 0))));
    assert!(is_empty(w.get_tile((1, 1))));
    assert!(is_solid(w.get_tile((15, 12))));
    assert!(is_empty(w.get_tile((14, 12))));
    assert!(is_solid(w.get_tile((65, 38))));
    assert!(is_empty(w.get_tile((65, 36))));
}

#[test]
fn out_of_bounds_is_empty() {
    let w = world();
    assert!(is_empty(w.get_tile((128, 0))));
    assert!(is_empty(w.get_tile((0, 64))));
    assert!(is_empty(w.get_tile((65_000, 65_000))));
}

#[test]
fn world_coords_round_trip() {
    for tx in 0..128u16 {
        for ty in 0..64u16 {
            let p = World::from_world_coords((tx, ty));
            assert_eq!(World::to_world_coords(p), (tx, ty));
        }
    }
}

#[test]
fn to_world_coords_clamps_at_edges() {
    assert_eq!(World::to_world_coords(Vec2::new(0, 0)), (0, 0));
    assert_eq!(World::to_world_coords(Vec2::new(4_000, 4_000)), (0, 0));
    assert_eq!(World::to_world_coords(Vec2::new(2_000_000, 2_000_000)), (127, 63));
}

#[test]
fn items_around_spawn_room() {
    let w = world();
    let found = w.get_unique_items_around_tile((65, 36));
    assert_eq!(found.len(), 18);
    // Row-major over the room neighborhood: the info box's room comes
    // before the spawn room, which holds the start and the crate.
    assert_eq!(found[0], Some(UniqueItem::InfoWelcome));
    assert_eq!(found[1], Some(UniqueItem::PlayerStart));
    assert_eq!(found[2], Some(UniqueItem::CrateLog));
    assert!(found[3..].iter().all(|o| o.is_none()));
}

#[test]
fn draw_covers_visible_tiles() {
    let w = world();
    let mut cam = Camera::new();
    cam.pos = World::from_world_coords((65, 36));
    let blits = w.draw(0, (65, 36), &cam);
    assert!(!blits.is_empty());
    for b in blits.iter() {
        assert!(b.colour == 2 || b.colour == 4);
        assert!(b.px >= 0 && b.px < 160);
        assert!(b.py >= 0 && b.py < 160);
    }
}

#[test]
fn tile_sprites_and_colours() {
    let w = world();
    let solid = w.get_tile((0, 0));
    assert!(solid.sprite().is_some());
    assert_eq!(solid.map_viewer_colour(), 1);
    let empty = w.get_tile((1, 1));
    assert!(empty.sprite().is_none());
    assert_eq!(empty.map_viewer_colour(), 0);
    assert!(empty.collision_configuration().is_empty());
    assert_eq!(solid.collision_configuration().len(), 4);
}

#[test]
fn tile_kind_equality() {
    let w = world();
    let a = w.get_tile((0, 0));
    let b = w.get_tile((15, 12));
    let e = w.get_tile((1, 1));
    assert!(rustmw::tiles::tile_type_enum_eq(a, b));
    assert!(!rustmw::tiles::tile_type_enum_eq(a, e));
}
