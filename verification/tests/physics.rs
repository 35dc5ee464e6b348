//! Physics scenarios: control, jumping, grounding, the substep driver
//! and the camera.

use rustmw::camera::Camera;
use rustmw::game::Game;
use rustmw::player::Player;
use rustmw::vec2::Vec2;
use rustmw::world::World;
use rustmw::{Level, MainState, BUTTON_2, BUTTON_DOWN, BUTTON_RIGHT, BUTTON_UP};

fn level() -> Level {
    Level::new().expect("the built-in level compiles")
}

#[test]
fn jump_strength_lookup() {
    assert_eq!(Player::jump_strength(0), 900);
    assert_eq!(Player::jump_strength(BUTTON_DOWN), 700);
    assert_eq!(Player::jump_strength(BUTTON_UP), 1000);
    assert_eq!(Player::jump_strength(BUTTON_DOWN | BUTTON_UP), 850);
}

#[test]
fn power_regenerates_without_input() {
    let mut p = Player::new();
    assert_eq!(p.power, 50_000);
    p.control(0, 0);
    // power' = 95 * power / 100 + 15000
    assert_eq!(p.power, 62_500);
    p.control(0, 0);
    assert_eq!(p.power, 74_375);
}

#[test]
fn power_stays_in_bounds() {
    let mut p = Player::new();
    let mut prev: u8 = 0;
    for i in 0..300u32 {
        let cur = (i % 256) as u8;
        p.grounded = i % 3 == 0;
        p.control(prev, cur);
        assert!(0 <= p.power && p.power <= 300_000, "power out of bounds: {}", p.power);
        prev = cur;
    }
}

#[test]
fn aim_then_release_fires_jump() {
    let mut p = Player::new();
    p.grounded = true;
    // Hold the aim button with right: the aim creeps right by 0.03.
    p.control(BUTTON_2, BUTTON_2 | BUTTON_RIGHT);
    assert_eq!(p.jump_dir, Some(30));
    assert_eq!(p.power, 62_500);
    // Release while grounded: the jump fires along (0.03, -1).
    p.control(BUTTON_2, 0);
    assert_eq!(p.jump_dir, None);
    assert_eq!(p.vel.x, 1_687);
    assert_eq!(p.vel.y, -56_250);
    assert_eq!(p.power, 20_937);
}

#[test]
fn aim_released_airborne_buffers_jump() {
    let mut p = Player::new();
    p.grounded = false;
    p.control(BUTTON_2, BUTTON_2);
    assert_eq!(p.jump_dir, Some(0));
    p.control(BUTTON_2, 0);
    // Buffered for 12 ticks, minus the decrement of this tick.
    assert_eq!(p.remembered_jump, 11);
    assert_eq!(p.vel.y, 0);
    // Landing while sinking fires the buffered jump.
    p.grounded = true;
    p.vel = Vec2::new(0, -1);
    p.control(0, 0);
    assert_eq!(p.remembered_jump, 0);
    assert!(p.vel.y < -1000);
}

#[test]
fn falling_onto_solid_tile_grounds() {
    // Scenario: the player hovers one tile above a solid tile, at the
    // tile's horizontal center, falling fast.
    let world = World::new(level());
    let mut p = Player::new();
    p.pos = Vec2::new(524_000, 300_000);  // center of tile (65, 37)
    p.vel = Vec2::new(0, 50_000);  // falling at 50 px per tick
    p.placed = true;
    let mut acc = Vec2::new(0, 0);
    p.handle_collisions(&world, &mut acc);
    assert!(p.grounded);
    // The net repulsion pushes up, against the fall.
    assert!(acc.y < 0, "acc.y = {}", acc.y);
    p.movement(&mut acc);
    // Even with gravity added the response outweighs free fall.
    assert!(acc.y < 500, "acc.y = {}", acc.y);
}

#[test]
fn tick_places_player_and_runs() {
    let mut game = Game::new(level());
    assert!(!game.player.placed);
    let state = game.tick(0, 0);
    assert!(matches!(state, MainState::Game));
    assert!(game.player.placed);
    // Spawn tile is (65, 36); one tick of physics moves the player a
    // little, but it stays within a tile of the spawn center.
    assert!((game.player.pos.x - 524_000).abs() < 8_000);
    assert!((game.player.pos.y - 292_000).abs() < 8_000);
    assert_eq!(game.frame, 1);
}

#[test]
fn wall_is_never_tunneled() {
    // Scenario: the player speeds rightward at a solid column; the
    // sub-stepped collision response keeps it on this side.
    let mut game = Game::new(level());
    game.player.pos = Vec2::new(116_000, 100_000);  // center of tile (14, 12)
    game.player.vel = Vec2::new(200_000, 0);  // 200 px per tick rightward
    game.player.placed = true;
    for _ in 0..30 {
        game.tick(0, 0);
        // Never past the center of the wall tile (15, 12).
        assert!(game.player.pos.x < 124_000, "pos.x = {}", game.player.pos.x);
    }
}

#[test]
fn camera_inertia_decays_to_zero() {
    let mut p = Player::new();
    p.pos = Vec2::new(70_000, 70_000);
    p.placed = true;
    let mut cam = Camera::new();
    assert_eq!(cam.pos.x, 70_000);
    cam.inertia = Vec2::new(50, 50);
    cam.limit = 2;
    // Near the stationary player, the countdown runs out and the
    // inertia snaps to zero.
    cam.update(&p, 0);
    cam.update(&p, 0);
    cam.update(&p, 0);
    assert_eq!(cam.inertia.x, 0);
    assert_eq!(cam.inertia.y, 0);
}

#[test]
fn camera_overshoot_resets_inertia() {
    let mut p = Player::new();
    p.pos = Vec2::new(200_000, 200_000);
    p.placed = true;
    let mut cam = Camera::new();
    cam.pos = Vec2::new(100_000, 100_000);
    cam.inertia = Vec2::new(-50_000, -50_000);
    cam.update(&p, 0);
    // The momentum pointed away from the target: hard reset, and the
    // camera does not move this tick.
    assert_eq!(cam.inertia.x, 0);
    assert_eq!(cam.inertia.y, 0);
    assert_eq!(cam.pos.x, 100_000);
    assert_eq!(cam.pos.y, 100_000);
}

#[test]
fn camera_pursues_distant_target() {
    let mut p = Player::new();
    p.pos = Vec2::new(200_000, 70_000);
    p.placed = true;
    let mut cam = Camera::new();
    cam.update(&p, 0);
    // A fresh pursuit blends 2% of the delta into the inertia and
    // applies a twentieth of it.
    assert_eq!(cam.limit, 5);
    assert!(cam.pos.x > 70_000);
    assert!(cam.inertia.x > 0);
}
