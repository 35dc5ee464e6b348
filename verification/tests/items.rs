//! Unique items: categories, the touched bitfield, and the per-item
//! draw plan.

use rustmw::camera::Camera;
use rustmw::unique_items::{count_touched, draw_unique, TouchedUniqueItems, UniqueItem,
    UniqueItemType};
use rustmw::world::World;
use rustmw::Level;

#[test]
fn item_categories() {
    assert!(matches!(UniqueItem::PlayerStart.item_type(), UniqueItemType::Other));
    assert!(matches!(UniqueItem::InfoWelcome.item_type(), UniqueItemType::Infobox));
    assert!(matches!(UniqueItem::FeatureSmallSize.item_type(), UniqueItemType::Feature));
    assert!(matches!(UniqueItem::CrateLog.item_type(), UniqueItemType::Crate));
    assert!(!UniqueItem::PlayerStart.visible());
    assert!(UniqueItem::InfoWelcome.visible());
    assert_eq!(UniqueItem::CrateLog.text(), "log");
    assert_eq!(UniqueItem::PlayerStart.text(), "");
}

#[test]
fn touched_bitfield() {
    let mut st = TouchedUniqueItems::new();
    for it in UniqueItem::all() {
        assert!(!st.is_touched(it));
    }
    st.touch(UniqueItem::CrateLog);
    assert!(st.is_touched(UniqueItem::CrateLog));
    assert!(!st.is_touched(UniqueItem::PlayerStart));
    assert!(!st.is_touched(UniqueItem::InfoWelcome));
    st.touch(UniqueItem::InfoWelcome);
    assert!(st.is_touched(UniqueItem::CrateLog));
    assert!(st.is_touched(UniqueItem::InfoWelcome));
}

#[test]
fn touched_counts_by_category() {
    let mut st = TouchedUniqueItems::new();
    assert_eq!(count_touched(&st), (0, 0, 0));
    st.touch(UniqueItem::InfoWelcome);
    st.touch(UniqueItem::CrateLog);
    assert_eq!(count_touched(&st), (1, 0, 1));
    st.touch(UniqueItem::FeatureSmallSize);
    assert_eq!(count_touched(&st), (1, 1, 1));
}

#[test]
fn draw_unique_records_touch() {
    let level = Level::new().unwrap();
    let mut cam = Camera::new();
    cam.pos = World::from_world_coords((67, 37));
    let mut inhibit = false;
    let mut st = TouchedUniqueItems::new();
    // Player standing on the crate: touched, and the crate panel opens.
    let plan = draw_unique(UniqueItem::CrateLog, 0, (67, 37), &level, &cam, &mut inhibit, &mut st);
    assert!(st.is_touched(UniqueItem::CrateLog));
    assert!(plan.on_screen);
    assert!(plan.touched);
    assert!(plan.show_crate_panel);
    assert!(!plan.show_info_panel);
    assert!(!inhibit);
}

#[test]
fn draw_unique_info_inhibits_player() {
    let level = Level::new().unwrap();
    let mut cam = Camera::new();
    cam.pos = World::from_world_coords((60, 45));
    let mut inhibit = false;
    let mut st = TouchedUniqueItems::new();
    let plan = draw_unique(
        UniqueItem::InfoWelcome,
        0,
        (60, 45),
        &level,
        &cam,
        &mut inhibit,
        &mut st,
    );
    assert!(plan.show_info_panel);
    assert!(plan.show_stats);
    assert!(inhibit);
    assert!(plan.sprite.is_none());
}

#[test]
fn draw_unique_off_screen_still_touches() {
    let level = Level::new().unwrap();
    let mut cam = Camera::new();
    // Camera far away from the crate.
    cam.pos = World::from_world_coords((5, 5));
    let mut inhibit = false;
    let mut st = TouchedUniqueItems::new();
    let plan = draw_unique(UniqueItem::CrateLog, 0, (67, 37), &level, &cam, &mut inhibit, &mut st);
    assert!(!plan.on_screen);
    assert!(st.is_touched(UniqueItem::CrateLog));
    assert!(plan.sprite.is_none());
}

#[test]
fn draw_unique_blinks_until_touched() {
    let level = Level::new().unwrap();
    let mut cam = Camera::new();
    cam.pos = World::from_world_coords((67, 37));
    let mut inhibit = false;
    let mut st = TouchedUniqueItems::new();
    // The player stands elsewhere: untouched, blinking phase on.
    let plan = draw_unique(UniqueItem::CrateLog, 0, (0, 0), &level, &cam, &mut inhibit, &mut st);
    assert!(!st.is_touched(UniqueItem::CrateLog));
    assert!(plan.on_screen);
    assert!(plan.blinker);
    assert!(plan.sprite.is_some());
    // Late in the blink period the phase is off.
    let plan2 = draw_unique(UniqueItem::CrateLog, 45, (0, 0), &level, &cam, &mut inhibit, &mut st);
    assert!(!plan2.blinker);
}
