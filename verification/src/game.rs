//! The frame driver: spawn placement, control, the adaptive sub-stepped
//! physics loop and the camera update, one call per frame.

use vstd::prelude::*;

use crate::camera::{camera_wf, spec_camera_new, spec_camera_update, Camera};
use crate::fx::{cl, fxdiv, tdiv, tdiv64};
use crate::player::{player_wf, spec_control, spec_handle_collisions, spec_movement,
    spec_player_new, Player};
use crate::unique_items::UniqueItem;
use crate::vec2::{spec_norm, spec_vadd, spec_vmuldiv, spec_vscale, v_ok, Vec2};
use crate::world::{spec_from_world_coords, World};
use crate::{level_wf, Level, MainState};

verus! {

/// The whole game state that one frame tick mutates.
pub struct Game {
    pub frame: u8,
    pub camera: Camera,
    pub player: Player,
    pub world: World,
}

pub open spec fn game_wf(g: Game) -> bool {
    &&& camera_wf(g.camera)
    &&& player_wf(g.player)
    &&& level_wf(g.world.level)
}

/// The movement budget of one frame, in milli-units.
pub const FRAME_BUDGET: i64 = 10_000;

/// One adaptive substep: collision pass, accumulator integration and
/// the chosen step size. Mirrors one iteration of the tick loop.
pub open spec fn spec_substep(p: Player, l: Level, remaining: int) -> (Player, int) {
    let p1 = Player { grounded: false, ..p };
    let hc = spec_handle_collisions(p1, l, Vec2 { x: 0, y: 0 });
    let mv = spec_movement(hc.0, hc.1);
    let p2 = mv.0;
    let acc = mv.1;
    let ve1 = spec_norm(p2.vel);
    let ve2 = spec_norm(spec_vadd(p2.vel, spec_vscale(acc, 2000)));
    let vmax: i64 = if ve1 >= ve2 {
        ve1
    } else {
        ve2
    };
    let rate = tdiv(vmax as int, 2000);
    let e1: int = if rate > 0 {
        cl(tdiv(200_000, rate))
    } else {
        i64::MAX as int
    };
    let anorm = spec_norm(acc);
    let e2: int = if anorm > 0 {
        let inv = cl(tdiv(1_000_000, anorm as int));
        if e1 < inv {
            e1
        } else {
            inv
        }
    } else {
        e1
    };
    let e3: int = if e2 > 100 {
        e2
    } else {
        100
    };
    let eps: int = if e3 < remaining {
        e3
    } else {
        remaining
    };
    let vel2 = spec_vadd(p2.vel, spec_vscale(acc, eps as i64));
    let pos2 = spec_vadd(p2.pos, spec_vmuldiv(spec_vscale(vel2, eps as i64), 1, 2000));
    (Player { vel: vel2, pos: pos2, ..p2 }, eps)
}

/// The substep loop run to exhaustion of the budget.
pub open spec fn spec_substeps(p: Player, l: Level, remaining: int) -> Player
    decreases remaining,
{
    if remaining <= 0 {
        p
    } else {
        let s = spec_substep(p, l, remaining);
        spec_substeps(s.0, l, remaining - s.1)
    }
}

/// How many substeps the loop takes for a given budget.
pub open spec fn spec_substep_count(p: Player, l: Level, remaining: int) -> int
    decreases remaining,
{
    if remaining <= 0 {
        0
    } else {
        let s = spec_substep(p, l, remaining);
        1 + spec_substep_count(s.0, l, remaining - s.1)
    }
}

/// The substep loop terminates: each step consumes at least 0.1 of the
/// budget, so a budget of `r` never takes more than `(r + 99) / 100`
/// substeps — at most 100 for the frame budget of 10.
pub proof fn lemma_substep_count_bounded(p: Player, l: Level, r: int)
    ensures
        r <= 0 ==> spec_substep_count(p, l, r) == 0,
        r > 0 ==> spec_substep_count(p, l, r) <= (r + 99) / 100,
    decreases r,
{
    if r > 0 {
        let s = spec_substep(p, l, r);
        let eps = s.1;
        lemma_substep_count_bounded(s.0, l, r - eps);
        if eps >= 100 {
            if r - eps > 0 {
                vstd::arithmetic::div_mod::lemma_div_is_ordered(r - eps + 99, r - 1, 100);
                assert((r - 1) / 100 + 1 == (r - 1 + 100) / 100) by {
                    vstd::arithmetic::div_mod::lemma_div_plus_one(r - 1, 100);
                };
            } else {
                vstd::arithmetic::div_mod::lemma_div_is_ordered(100, r + 99, 100);
            }
        } else {
            // A short step happens only when the budget itself was small.
            assert(eps == r);
            vstd::arithmetic::div_mod::lemma_div_is_ordered(100, r + 99, 100);
        }
    }
}

/// At most 100 substeps are ever taken in one frame.
pub proof fn lemma_frame_substeps_bounded(p: Player, l: Level)
    ensures
        spec_substep_count(p, l, FRAME_BUDGET as int) <= 100,
{
    lemma_substep_count_bounded(p, l, FRAME_BUDGET as int);
}

/// One full frame tick; mirrors `Game::tick` exactly.
pub open spec fn spec_game_tick(g: Game, gamepad: u8, prev_gamepad: u8) -> Game {
    let spawn = spec_from_world_coords(
        crate::spec_unique_item_pos(g.world.level, UniqueItem::PlayerStart),
    );
    let p0 = if !g.player.placed {
        Player { pos: spawn, placed: true, ..g.player }
    } else {
        g.player
    };
    let cam0 = if !g.player.placed {
        Camera { pos: spawn, ..g.camera }
    } else {
        g.camera
    };
    let p1 = spec_control(p0, prev_gamepad, gamepad);
    let p2 = spec_substeps(p1, g.world.level, FRAME_BUDGET as int);
    let cam1 = spec_camera_update(cam0, p2, gamepad);
    let frame2: u8 = if g.frame == 255 {
        0u8
    } else {
        (g.frame + 1) as u8
    };
    Game { frame: frame2, camera: cam1, player: p2, world: g.world }
}

impl Game {
    pub fn new(level: Level) -> (r: Game)
        requires
            level_wf(level),
        ensures
            r.frame == 0,
            r.camera == spec_camera_new(),
            r.player == spec_player_new(),
            r.world.level == level,
            game_wf(r),
    {
        Game { frame: 0, camera: Camera::new(), player: Player::new(), world: World::new(level) }
    }

    /// Advance the simulation by one frame.
    pub fn tick(&mut self, gamepad: u8, prev_gamepad: u8) -> (r: MainState)
        requires
            game_wf(*old(self)),
        ensures
            *final(self) == spec_game_tick(*old(self), gamepad, prev_gamepad),
            game_wf(*final(self)),
            r == MainState::Game,
    {
        if !self.player.placed {
            let spawn = World::from_world_coords(
                self.world.level.unique_item_pos(UniqueItem::PlayerStart),
            );
            self.player.pos = spawn;
            self.player.placed = true;
            self.camera.pos = spawn;
        }

        self.player.control(prev_gamepad, gamepad);

        let ghost p_start = self.player;
        let ghost g_mid = *self;
        let mut remaining: i64 = FRAME_BUDGET;
        while remaining > 0
            invariant
                player_wf(self.player),
                level_wf(self.world.level),
                remaining <= FRAME_BUDGET,
                *self == (Game { player: self.player, ..g_mid }),
                spec_substeps(self.player, self.world.level, remaining as int) == spec_substeps(
                    p_start,
                    g_mid.world.level,
                    FRAME_BUDGET as int,
                ),
            decreases remaining,
        {
            self.player.grounded = false;
            let mut acceleration = Vec2::new(0, 0);
            self.player.handle_collisions(&self.world, &mut acceleration);
            self.player.movement(&mut acceleration);

            let ve1 = self.player.vel.norm();
            let ve2 = self.player.vel.vadd(acceleration.vscale(2000)).norm();
            let vmax: i64 = if ve1 >= ve2 {
                ve1
            } else {
                ve2
            };
            let rate = tdiv64(vmax, 2000);
            let e1: i64 = if rate > 0 {
                fxdiv(200, rate)
            } else {
                i64::MAX
            };
            let anorm = acceleration.norm();
            let e2: i64 = if anorm > 0 {
                let inv = fxdiv(1000, anorm);
                if e1 < inv {
                    e1
                } else {
                    inv
                }
            } else {
                e1
            };
            let e3: i64 = if e2 > 100 {
                e2
            } else {
                100
            };
            let epsilon: i64 = if e3 < remaining {
                e3
            } else {
                remaining
            };

            self.player.vel = self.player.vel.vadd(acceleration.vscale(epsilon));
            self.player.pos = self.player.pos.vadd(
                self.player.vel.vscale(epsilon).vmuldiv(1, 2000),
            );
            remaining = remaining - epsilon;
        }

        let player_snapshot = self.player;
        self.camera.update(&player_snapshot, gamepad);

        if self.frame == 255 {
            self.frame = 0;
        } else {
            self.frame = self.frame + 1;
        }
        MainState::Game
    }
}

} // verus!
