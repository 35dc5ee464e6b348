//! The camera: elastic pursuit of a look-at point derived from player
//! state and raw input, with momentum, overshoot damping and a
//! lingering look-down mode.

use vstd::prelude::*;

use crate::player::Player;
use crate::vec2::{spec_dot, spec_norm, spec_vadd, spec_vmuldiv, spec_vsub, v_ok, Vec2};
use crate::{BUTTON_DOWN, BUTTON_LEFT, BUTTON_RIGHT, BUTTON_UP};

verus! {

/// The camera's mutable state, in milli-pixel units.
#[derive(Clone, Copy)]
pub struct Camera {
    /// Current look-at point.
    pub pos: Vec2,
    /// Smoothed velocity-like bias toward the pursuit target.
    pub inertia: Vec2,
    /// Countdown deferring the snap of inertia to zero.
    pub limit: u8,
    /// How long the look-down input has been held.
    pub look_down_ctr: u8,
}

pub open spec fn camera_wf(c: Camera) -> bool {
    &&& v_ok(c.pos)
    &&& v_ok(c.inertia)
}

/// The pursuit target for the current player state and held keys.
pub open spec fn spec_camera_target(c: Camera, p: Player, keys: u8) -> Vec2 {
    let f0 = spec_vadd(p.pos, spec_vmuldiv(p.vel, 1, 10));
    let f1 = if p.jump_dir is Some {
        spec_vadd(f0, Vec2 { x: 0, y: -30_000i64 })
    } else {
        f0
    };
    if !p.grounded && p.jump_dir is None {
        let f2 = if keys & BUTTON_UP != 0 {
            spec_vadd(f1, Vec2 { x: 0, y: -20_000i64 })
        } else {
            f1
        };
        let f3 = if keys & BUTTON_LEFT != 0 {
            spec_vadd(f2, Vec2 { x: -20_000i64, y: 0 })
        } else {
            f2
        };
        let f4 = if keys & BUTTON_RIGHT != 0 {
            spec_vadd(f3, Vec2 { x: 20_000, y: 0 })
        } else {
            f3
        };
        if keys & BUTTON_DOWN != 0 {
            spec_vadd(f4, Vec2 { x: 0, y: 50_000 })
        } else {
            f4
        }
    } else if p.jump_dir is None && keys & BUTTON_DOWN != 0 && c.look_down_ctr > 100 {
        if keys & BUTTON_UP != 0 {
            spec_vadd(f1, Vec2 { x: 0, y: -48_000i64 })
        } else if keys & BUTTON_LEFT != 0 {
            spec_vadd(f1, Vec2 { x: -48_000i64, y: 0 })
        } else if keys & BUTTON_RIGHT != 0 {
            spec_vadd(f1, Vec2 { x: 48_000, y: 0 })
        } else {
            spec_vadd(f1, Vec2 { x: 0, y: 48_000 })
        }
    } else {
        f1
    }
}

/// The look-down counter after one update.
pub open spec fn spec_look_down_ctr(c: Camera, p: Player, keys: u8) -> u8 {
    if !p.grounded && p.jump_dir is None {
        c.look_down_ctr
    } else if p.jump_dir is None {
        if keys & BUTTON_DOWN != 0 {
            if c.look_down_ctr > 100 {
                c.look_down_ctr
            } else {
                (c.look_down_ctr + 1) as u8
            }
        } else {
            0u8
        }
    } else {
        c.look_down_ctr
    }
}

/// One camera update; mirrors `Camera::update` exactly.
pub open spec fn spec_camera_update(c: Camera, p: Player, keys: u8) -> Camera {
    let futurepos = spec_camera_target(c, p, keys);
    let ctr = spec_look_down_ctr(c, p, keys);
    let discr = spec_norm(spec_vsub(c.pos, futurepos));
    let inertia_norm = spec_norm(c.inertia);
    if discr < 20_000 || (discr < 28_000 && inertia_norm < 100) {
        let c2 = if c.limit == 0 {
            Camera { inertia: Vec2 { x: 0, y: 0 }, ..c }
        } else {
            Camera { limit: (c.limit - 1) as u8, ..c }
        };
        Camera {
            pos: spec_vadd(c2.pos, spec_vmuldiv(c2.inertia, 1, 20)),
            inertia: spec_vmuldiv(c2.inertia, 99, 100),
            look_down_ctr: ctr,
            ..c2
        }
    } else {
        let delta = spec_vsub(futurepos, c.pos);
        if inertia_norm > 10 && spec_dot(delta, c.inertia) < 0 {
            // Overshoot reversal: drop the momentum and skip this tick.
            Camera { inertia: Vec2 { x: 0, y: 0 }, look_down_ctr: ctr, ..c }
        } else {
            let inertia2 = spec_vadd(
                spec_vmuldiv(c.inertia, 98, 100),
                spec_vmuldiv(delta, 2, 100),
            );
            Camera {
                pos: spec_vadd(c.pos, spec_vmuldiv(inertia2, 1, 20)),
                inertia: spec_vmuldiv(inertia2, 99, 100),
                limit: 5u8,
                look_down_ctr: ctr,
                ..c
            }
        }
    }
}

impl Camera {
    pub fn new() -> (r: Camera)
        ensures
            r == spec_camera_new(),
            camera_wf(r),
    {
        Camera {
            pos: Vec2 { x: 70_000, y: 70_000 },
            inertia: Vec2 { x: 0, y: 0 },
            limit: 0,
            look_down_ctr: 0,
        }
    }

    /// Ease the camera toward its pursuit target.
    pub fn update(&mut self, p: &Player, keys: u8)
        requires
            camera_wf(*old(self)),
            crate::player::player_wf(*p),
        ensures
            *final(self) == spec_camera_update(*old(self), *p, keys),
            camera_wf(*final(self)),
    {
        let mut futurepos = p.pos.vadd(p.vel.vmuldiv(1, 10));
        if p.jump_dir.is_some() {
            futurepos = futurepos.vadd(Vec2::new(0, -30_000));
        }

        if !p.grounded && p.jump_dir.is_none() {
            if keys & BUTTON_UP != 0 {
                futurepos = futurepos.vadd(Vec2::new(0, -20_000));
            }
            if keys & BUTTON_LEFT != 0 {
                futurepos = futurepos.vadd(Vec2::new(-20_000, 0));
            }
            if keys & BUTTON_RIGHT != 0 {
                futurepos = futurepos.vadd(Vec2::new(20_000, 0));
            }
            if keys & BUTTON_DOWN != 0 {
                futurepos = futurepos.vadd(Vec2::new(0, 50_000));
            }
        } else if p.jump_dir.is_none() {
            if keys & BUTTON_DOWN != 0 {
                if self.look_down_ctr > 100 {
                    if keys & BUTTON_UP != 0 {
                        futurepos = futurepos.vadd(Vec2::new(0, -48_000));
                    } else if keys & BUTTON_LEFT != 0 {
                        futurepos = futurepos.vadd(Vec2::new(-48_000, 0));
                    } else if keys & BUTTON_RIGHT != 0 {
                        futurepos = futurepos.vadd(Vec2::new(48_000, 0));
                    } else {
                        futurepos = futurepos.vadd(Vec2::new(0, 48_000));
                    }
                } else {
                    self.look_down_ctr = self.look_down_ctr + 1;
                }
            } else {
                self.look_down_ctr = 0;
            }
        }

        let discr = self.pos.vsub(futurepos).norm();
        let inertia_norm = self.inertia.norm();
        if discr < 20_000 || (discr < 28_000 && inertia_norm < 100) {
            if self.limit == 0 {
                self.inertia = Vec2::new(0, 0);
            } else {
                self.limit = self.limit - 1;
            }
        } else {
            let delta = futurepos.vsub(self.pos);
            if inertia_norm > 10 {
                if delta.vdot(self.inertia) < 0 {
                    self.inertia = Vec2::new(0, 0);
                    return ;
                }
            }
            self.inertia = self.inertia.vmuldiv(98, 100).vadd(delta.vmuldiv(2, 100));
            self.limit = 5;
        }
        self.pos = self.pos.vadd(self.inertia.vmuldiv(1, 20));
        self.inertia = self.inertia.vmuldiv(99, 100);
    }
}

/// The camera after `n` updates with a fixed player state and keys.
pub open spec fn spec_camera_iter(c: Camera, p: Player, keys: u8, n: nat) -> Camera
    decreases n,
{
    if n == 0 {
        c
    } else {
        spec_camera_update(spec_camera_iter(c, p, keys, (n - 1) as nat), p, keys)
    }
}

/// Whether the camera is close enough to its target to wind down.
pub open spec fn spec_camera_near(c: Camera, p: Player, keys: u8) -> bool {
    let futurepos = spec_camera_target(c, p, keys);
    let discr = spec_norm(spec_vsub(c.pos, futurepos));
    let inertia_norm = spec_norm(c.inertia);
    discr < 20_000 || (discr < 28_000 && inertia_norm < 100)
}

#[verifier::rlimit(100)]
proof fn lemma_camera_damping_aux(c: Camera, p: Player, keys: u8, n: nat)
    requires
        camera_wf(c),
        forall|k: nat| k < n ==> spec_camera_near(#[trigger] spec_camera_iter(c, p, keys, k), p, keys),
    ensures
        camera_wf(spec_camera_iter(c, p, keys, n)),
        n <= c.limit ==> spec_camera_iter(c, p, keys, n).limit == c.limit - n,
        n >= c.limit ==> spec_camera_iter(c, p, keys, n).limit == 0,
        n > c.limit ==> spec_camera_iter(c, p, keys, n).inertia == (Vec2 { x: 0, y: 0 }),
    decreases n,
{
    if n > 0 {
        lemma_camera_damping_aux(c, p, keys, (n - 1) as nat);
        let d = spec_camera_iter(c, p, keys, (n - 1) as nat);
        assert(spec_camera_near(d, p, keys));
        assert(spec_camera_iter(c, p, keys, n) == spec_camera_update(d, p, keys));
    }
}

/// Camera overshoot damping: while the camera stays near its target,
/// the deferred-snap countdown runs out after at most `limit + 1`
/// updates and the inertia is exactly zero from then on.
pub proof fn lemma_camera_overshoot_damping(c: Camera, p: Player, keys: u8, n: nat)
    requires
        camera_wf(c),
        n > c.limit,
        forall|k: nat| k < n ==> spec_camera_near(#[trigger] spec_camera_iter(c, p, keys, k), p, keys),
    ensures
        spec_camera_iter(c, p, keys, n).inertia == (Vec2 { x: 0, y: 0 }),
{
    lemma_camera_damping_aux(c, p, keys, n);
}

/// The initial camera state.
pub open spec fn spec_camera_new() -> Camera {
    Camera { pos: Vec2 { x: 70_000, y: 70_000 }, inertia: Vec2 { x: 0, y: 0 }, limit: 0, look_down_ctr: 0 }
}

} // verus!
